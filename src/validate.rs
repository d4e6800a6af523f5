//! Field checks run before any write.
use vstd::prelude::*;

verus! {

/// A field of an incoming body that can fail its check.
#[derive(Clone, Copy, Debug, PartialEq, Eq, Structural)]
pub enum Field {
    Title,
    Description,
    Price,
    RequesterId,
    HelperId,
}

impl Field {
    /// The field's name on the wire.
    pub open spec fn wire(self) -> Seq<char> {
        match self {
            Field::Title => "title"@,
            Field::Description => "description"@,
            Field::Price => "price"@,
            Field::RequesterId => "requesterId"@,
            Field::HelperId => "helperId"@,
        }
    }

    pub fn as_str(&self) -> (r: &'static str)
        ensures
            r@ == self.wire(),
    {
        match self {
            Field::Title => "title",
            Field::Description => "description",
            Field::Price => "price",
            Field::RequesterId => "requesterId",
            Field::HelperId => "helperId",
        }
    }
}

/// The body of a request creation. `helper_id` may be `0` (or absent on the
/// wire, which reads as `0`): the request then starts unbound.
#[derive(Clone, Debug, PartialEq, Eq)]
pub struct CreateRequestInput {
    pub title: String,
    pub description: String,
    pub price: i64,
    pub requester_id: i32,
    pub helper_id: i32,
}

pub const MIN_TITLE_CHARS: u64 = 1;

pub const MIN_DESCRIPTION_CHARS: u64 = 10;

pub const MIN_PRICE: i64 = 1;

pub const MIN_ID: i64 = 1;

/// `seq![f]` when `ok` fails, else nothing.
pub open spec fn flag(ok: bool, f: Field) -> Seq<Field> {
    if ok {
        seq![]
    } else {
        seq![f]
    }
}

/// Every field of a creation body that fails its check, in field order.
pub open spec fn create_violations(input: CreateRequestInput) -> Seq<Field> {
    flag(input.title@.len() >= MIN_TITLE_CHARS, Field::Title) + flag(
        input.description@.len() >= MIN_DESCRIPTION_CHARS,
        Field::Description,
    ) + flag(input.price >= MIN_PRICE, Field::Price) + flag(
        input.requester_id >= MIN_ID,
        Field::RequesterId,
    )
}

/// The fields of a binding or acceptance body that fail their check.
pub open spec fn helper_violations(helper_id: i32) -> Seq<Field> {
    flag(helper_id >= MIN_ID, Field::HelperId)
}

/// Relies on validator::validate_length: with a lower bound alone it holds
/// exactly when the string has at least `min` characters (it counts `chars()`).
#[verifier::external_body]
fn has_min_chars(s: &str, min: u64) -> (r: bool)
    ensures
        r == (s@.len() >= min),
{
    validator::validate_length(s, Some(min), None, None)
}

/// Relies on validator::validate_range: with a lower bound alone it holds
/// exactly when `value >= min`.
#[verifier::external_body]
fn at_least(value: i64, min: i64) -> (r: bool)
    ensures
        r == (value >= min),
{
    validator::validate_range(value, Some(min), None)
}

fn push_unless(out: &mut Vec<Field>, ok: bool, f: Field)
    ensures
        final(out)@ == old(out)@ + flag(ok, f),
{
    if !ok {
        out.push(f);
    }
    assert(final(out)@ =~= old(out)@ + flag(ok, f));
}

/// Checks a creation body and lists every field that fails, not only the first.
pub fn validate_create(input: &CreateRequestInput) -> (r: Vec<Field>)
    ensures
        r@ == create_violations(*input),
{
    let mut out: Vec<Field> = Vec::new();
    push_unless(&mut out, has_min_chars(input.title.as_str(), MIN_TITLE_CHARS), Field::Title);
    push_unless(
        &mut out,
        has_min_chars(input.description.as_str(), MIN_DESCRIPTION_CHARS),
        Field::Description,
    );
    push_unless(&mut out, at_least(input.price, MIN_PRICE), Field::Price);
    push_unless(&mut out, at_least(input.requester_id as i64, MIN_ID), Field::RequesterId);
    assert(out@ =~= create_violations(*input));
    out
}

/// Checks the helper id of a binding or acceptance body.
pub fn validate_helper_id(helper_id: i32) -> (r: Vec<Field>)
    ensures
        r@ == helper_violations(helper_id),
{
    let mut out: Vec<Field> = Vec::new();
    push_unless(&mut out, at_least(helper_id as i64, MIN_ID), Field::HelperId);
    assert(out@ =~= helper_violations(helper_id));
    out
}

/// A creation body that fails any one check is refused with that field listed.
pub proof fn lemma_each_failed_check_is_listed(input: CreateRequestInput)
    ensures
        input.title@.len() < MIN_TITLE_CHARS ==> create_violations(input).contains(Field::Title),
        input.description@.len() < MIN_DESCRIPTION_CHARS ==> create_violations(input).contains(
            Field::Description,
        ),
        input.price < MIN_PRICE ==> create_violations(input).contains(Field::Price),
        input.requester_id < MIN_ID ==> create_violations(input).contains(Field::RequesterId),
        create_violations(input).len() == 0 <==> (input.title@.len() >= MIN_TITLE_CHARS
            && input.description@.len() >= MIN_DESCRIPTION_CHARS && input.price >= MIN_PRICE
            && input.requester_id >= MIN_ID),
{
    let a = flag(input.title@.len() >= MIN_TITLE_CHARS, Field::Title);
    let b = flag(input.description@.len() >= MIN_DESCRIPTION_CHARS, Field::Description);
    let c = flag(input.price >= MIN_PRICE, Field::Price);
    let d = flag(input.requester_id >= MIN_ID, Field::RequesterId);
    let v = create_violations(input);
    assert(v == a + b + c + d);
    if input.title@.len() < MIN_TITLE_CHARS {
        assert(v[0] == Field::Title);
    }
    if input.description@.len() < MIN_DESCRIPTION_CHARS {
        assert(v[a.len() as int] == Field::Description);
    }
    if input.price < MIN_PRICE {
        assert(v[(a.len() + b.len()) as int] == Field::Price);
    }
    if input.requester_id < MIN_ID {
        assert(v[(a.len() + b.len() + c.len()) as int] == Field::RequesterId);
    }
}

} // verus!
