//! The user collection's records, and how the outcome of each collection
//! operation becomes the payload of its route.
//!
//! The queries themselves run against the database in the server; the
//! functions here take their outcomes as plain values. Every failure ends
//! as data in a success-shaped payload, never as an error status.

use vstd::prelude::*;

verus! {

/// A record's identity: the twelve bytes of a document object id.
#[derive(Clone, Copy, Debug)]
pub struct RecordId {
    pub bytes: [u8; 12],
}

/// A stored user.
#[derive(Debug)]
pub struct UserRecord {
    pub id: RecordId,
    pub name: String,
    pub contacts: Vec<String>,
    /// Stored as given.
    pub password: String,
}

/// Why a collection operation did not complete.
#[derive(Debug)]
pub enum QueryError {
    /// The storage could not serve the request; the driver's message.
    Unavailable(String),
    /// A stored record could not be read; the driver's message.
    DecodeFailed(String),
}

impl QueryError {
    /// The message that the error carries.
    pub open spec fn message_spec(&self) -> Seq<char> {
        match self {
            QueryError::Unavailable(m) => m@,
            QueryError::DecodeFailed(m) => m@,
        }
    }

    /// The message that the error carries.
    pub fn message(&self) -> (r: String)
        ensures
            r@ == self.message_spec(),
    {
        match self {
            QueryError::Unavailable(m) => m.clone(),
            QueryError::DecodeFailed(m) => m.clone(),
        }
    }
}

/// The lower-case hexadecimal digit of `d`, for `d < 16`.
pub open spec fn hex_digit(d: u8) -> char {
    "0123456789abcdef"@[d as int]
}

/// Two lower-case hexadecimal digits for each byte, most significant first.
pub open spec fn hex_of(b: Seq<u8>) -> Seq<char>
    decreases b.len(),
{
    if b.len() == 0 {
        Seq::empty()
    } else {
        seq![hex_digit(b[0] / 16), hex_digit(b[0] % 16)] + hex_of(b.drop_first())
    }
}

/// Relies on `bson::oid::ObjectId::from_bytes` and `ObjectId::to_hex`, which
/// hex-encodes the twelve bytes in lower case.
#[verifier::external_body]
fn object_id_hex(bytes: [u8; 12]) -> (r: String)
    ensures
        r@ == hex_of(bytes@),
{
    bson::oid::ObjectId::from_bytes(bytes).to_hex()
}

/// Relies on `bson::oid::ObjectId::new`, which makes a fresh id from the
/// time, the process and a counter; nothing is known of its bytes.
#[verifier::external_body]
fn new_object_id() -> (r: [u8; 12]) {
    bson::oid::ObjectId::new().bytes()
}

impl RecordId {
    /// A fresh identity.
    pub fn fresh() -> (r: RecordId) {
        RecordId { bytes: new_object_id() }
    }

    /// The identity as 24 lower-case hexadecimal digits.
    pub fn to_hex(&self) -> (r: String)
        ensures
            r@ == hex_of(self.bytes@),
    {
        object_id_hex(self.bytes)
    }
}

/// What listing the collection yields, from the outcomes of reading each
/// record in turn: all the records, or the first failure.
pub open spec fn listing_spec(items: Seq<Result<UserRecord, QueryError>>) -> Result<
    Seq<UserRecord>,
    QueryError,
>
    decreases items.len(),
{
    if items.len() == 0 {
        Ok(Seq::empty())
    } else {
        match items[0] {
            Err(e) => Err(e),
            Ok(u) => prepend_records(seq![u], listing_spec(items.drop_first())),
        }
    }
}

/// `front` put before the records of a successful listing.
pub open spec fn prepend_records(front: Seq<UserRecord>, r: Result<Seq<UserRecord>, QueryError>) -> Result<
    Seq<UserRecord>,
    QueryError,
> {
    match r {
        Ok(rest) => Ok(front + rest),
        Err(e) => Err(e),
    }
}

/// Gathers the records read from the collection, stopping at the first
/// record that could not be read.
pub fn collect_listing(items: Vec<Result<UserRecord, QueryError>>) -> (r: Result<
    Vec<UserRecord>,
    QueryError,
>)
    ensures
        (match r {
            Ok(v) => listing_spec(items@) == Ok::<Seq<UserRecord>, QueryError>(v@),
            Err(e) => listing_spec(items@) == Err::<Seq<UserRecord>, QueryError>(e),
        }),
{
    let ghost all = items@;
    let mut rest = items;
    let mut acc: Vec<UserRecord> = Vec::new();
    while rest.len() > 0
        invariant
            all == items@,
            listing_spec(all) == prepend_records(acc@, listing_spec(rest@)),
        decreases rest.len(),
    {
        let ghost before = rest@;
        let item = rest.remove(0);
        proof {
            assert(rest@ =~= before.drop_first());
        }
        match item {
            Ok(u) => {
                proof {
                    assert(acc@ + (seq![u] + Seq::<UserRecord>::empty()) =~= acc@.push(u));
                    match listing_spec(rest@) {
                        Ok(tail) => {
                            assert(acc@ + (seq![u] + tail) =~= acc@.push(u) + tail);
                        },
                        Err(_) => {},
                    }
                }
                acc.push(u);
            },
            Err(e) => {
                assert(listing_spec(before) == Err::<Seq<UserRecord>, QueryError>(e));
                return Err(e);
            },
        }
    }
    proof {
        assert(acc@ + Seq::<UserRecord>::empty() =~= acc@);
    }
    Ok(acc)
}

/// Contacts and password of the record that reports a failed listing.
pub const ERROR_FIELD: &'static str = "Error";

/// The record that stands for a failed listing: the message in its name.
pub fn error_record(id: RecordId, message: String) -> (r: UserRecord)
    ensures
        r.id == id,
        r.name@ == message@,
        r.contacts@.len() == 1,
        r.contacts@[0]@ == ERROR_FIELD@,
        r.password@ == ERROR_FIELD@,
{
    let mut contacts: Vec<String> = Vec::new();
    contacts.push(ERROR_FIELD.to_owned());
    UserRecord { id, name: message, contacts, password: ERROR_FIELD.to_owned() }
}

/// Whether `r` is the record that reports the failure `e` under some id.
pub open spec fn is_error_record(r: UserRecord, e: QueryError) -> bool {
    &&& r.name@ == e.message_spec()
    &&& r.contacts@.len() == 1
    &&& r.contacts@[0]@ == ERROR_FIELD@
    &&& r.password@ == ERROR_FIELD@
}

/// The payload of the listing route, with `id` for the record that reports
/// a failure.
pub fn users_payload(result: Result<Vec<UserRecord>, QueryError>, id: RecordId) -> (r: Vec<
    UserRecord,
>)
    ensures
        (match result {
            Ok(v) => r@ == v@,
            Err(e) => r@.len() == 1 && r@[0].id == id && is_error_record(r@[0], e),
        }),
{
    match result {
        Ok(v) => v,
        Err(e) => {
            let mut r: Vec<UserRecord> = Vec::new();
            r.push(error_record(id, e.message()));
            r
        },
    }
}

/// The payload of the listing route: the records, or one record under a
/// fresh id that carries the failure's message.
pub fn users_response(result: Result<Vec<UserRecord>, QueryError>) -> (r: Vec<UserRecord>)
    ensures
        (match result {
            Ok(v) => r@ == v@,
            Err(e) => r@.len() == 1 && is_error_record(r@[0], e),
        }),
{
    let id = RecordId::fresh();
    users_payload(result, id)
}

/// The decimal digit of `d`, for `d < 10`.
pub open spec fn decimal_digit(d: nat) -> char {
    "0123456789"@[d as int]
}

/// The decimal notation of `n`, without leading zeros.
pub open spec fn decimal_spec(n: nat) -> Seq<char>
    decreases n,
{
    if n < 10 {
        seq![decimal_digit(n)]
    } else {
        decimal_spec(n / 10) + seq![decimal_digit(n % 10)]
    }
}

fn digit_text(d: u64) -> (r: &'static str)
    requires
        d < 10,
    ensures
        r@ == seq![decimal_digit(d as nat)],
{
    proof {
        reveal_strlit("0123456789");
        reveal_strlit("0");
        reveal_strlit("1");
        reveal_strlit("2");
        reveal_strlit("3");
        reveal_strlit("4");
        reveal_strlit("5");
        reveal_strlit("6");
        reveal_strlit("7");
        reveal_strlit("8");
        reveal_strlit("9");
    }
    let r = if d == 0 {
        "0"
    } else if d == 1 {
        "1"
    } else if d == 2 {
        "2"
    } else if d == 3 {
        "3"
    } else if d == 4 {
        "4"
    } else if d == 5 {
        "5"
    } else if d == 6 {
        "6"
    } else if d == 7 {
        "7"
    } else if d == 8 {
        "8"
    } else {
        "9"
    };
    assert(r@ =~= seq![decimal_digit(d as nat)]);
    r
}

/// The decimal notation of `n`.
pub fn decimal_text(n: u64) -> (r: String)
    ensures
        r@ == decimal_spec(n as nat),
    decreases n,
{
    if n < 10 {
        digit_text(n).to_owned()
    } else {
        let mut r = decimal_text(n / 10);
        r.append(digit_text(n % 10));
        r
    }
}

/// Put before the hexadecimal id of an inserted record.
pub const INSERTED_ID_OPEN: &'static str = "ObjectId(\"";

/// Put after the hexadecimal id of an inserted record.
pub const INSERTED_ID_CLOSE: &'static str = "\")";

/// Put before the cause when no record was inserted.
pub const NOT_INSERTED_PREFIX: &'static str = "no document inserted: ";

/// Put after the count of deleted records.
pub const DELETED_SUFFIX: &'static str = " user deleted";

/// Put before the cause when no record was deleted.
pub const NOT_DELETED_PREFIX: &'static str = "no document deleted: ";

/// The payload of the insert route.
pub open spec fn insert_payload_spec(result: Result<RecordId, QueryError>) -> Seq<char> {
    match result {
        Ok(id) => INSERTED_ID_OPEN@ + hex_of(id.bytes@) + INSERTED_ID_CLOSE@,
        Err(e) => NOT_INSERTED_PREFIX@ + e.message_spec(),
    }
}

/// The payload of the insert route: the identity the record was stored
/// under, or the failure explained.
pub fn insert_payload(result: Result<RecordId, QueryError>) -> (r: String)
    ensures
        r@ == insert_payload_spec(result),
{
    match result {
        Ok(id) => {
            let mut r = INSERTED_ID_OPEN.to_owned();
            let hex = id.to_hex();
            r.append(hex.as_str());
            r.append(INSERTED_ID_CLOSE);
            r
        },
        Err(e) => {
            let mut r = NOT_INSERTED_PREFIX.to_owned();
            let m = e.message();
            r.append(m.as_str());
            r
        },
    }
}

/// The payload of the delete route.
pub open spec fn delete_payload_spec(result: Result<u64, QueryError>) -> Seq<char> {
    match result {
        Ok(n) => decimal_spec(n as nat) + DELETED_SUFFIX@,
        Err(e) => NOT_DELETED_PREFIX@ + e.message_spec(),
    }
}

/// The payload of the delete route: how many records were removed (none is
/// a success too), or the failure explained.
pub fn delete_payload(result: Result<u64, QueryError>) -> (r: String)
    ensures
        r@ == delete_payload_spec(result),
{
    match result {
        Ok(n) => {
            let mut r = decimal_text(n);
            r.append(DELETED_SUFFIX);
            r
        },
        Err(e) => {
            let mut r = NOT_DELETED_PREFIX.to_owned();
            let m = e.message();
            r.append(m.as_str());
            r
        },
    }
}

} // verus!
