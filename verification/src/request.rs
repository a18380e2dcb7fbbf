//! The requests that reopen a download in the middle of its object.

use vstd::prelude::*;
use vstd::string::StringExecFns;

verus! {

/// The character of a decimal digit.
pub open spec fn digit(d: nat) -> char
    recommends
        d < 10,
{
    ('0' as nat + d) as char
}

/// A number in decimal, without leading zeros.
pub open spec fn decimal(n: nat) -> Seq<char>
    decreases n,
{
    if n < 10 {
        seq![digit(n)]
    } else {
        decimal(n / 10).push(digit(n % 10))
    }
}

/// The number that a sequence of decimal digits stands for.
pub open spec fn decimal_value(s: Seq<char>) -> int
    decreases s.len(),
{
    if s.len() == 0 {
        0
    } else {
        10 * decimal_value(s.drop_last()) + (s.last() as int - '0' as int)
    }
}

/// The value of a `Range` header that asks for everything from byte `start` on.
pub open spec fn range_from(start: nat) -> Seq<char> {
    "bytes="@ + decimal(start) + "-"@
}

/// The digit `d` as a string of one character.
fn digit_str(d: u64) -> (s: &'static str)
    requires
        d < 10,
    ensures
        s@ == seq![digit(d as nat)],
{
    proof {
        reveal_strlit("0");
        reveal_strlit("1");
        reveal_strlit("2");
        reveal_strlit("3");
        reveal_strlit("4");
        reveal_strlit("5");
        reveal_strlit("6");
        reveal_strlit("7");
        reveal_strlit("8");
        reveal_strlit("9");
    }
    match d {
        0 => "0",
        1 => "1",
        2 => "2",
        3 => "3",
        4 => "4",
        5 => "5",
        6 => "6",
        7 => "7",
        8 => "8",
        _ => "9",
    }
}

/// Appends `n` in decimal.
fn append_decimal(out: &mut String, n: u64)
    ensures
        final(out)@ == old(out)@ + decimal(n as nat),
    decreases n,
{
    if n >= 10 {
        append_decimal(out, n / 10);
    }
    out.append(digit_str(n % 10));
    assert(out@ =~= old(out)@ + decimal(n as nat));
}

/// The request that reopens a download.
#[derive(Debug, PartialEq, Eq)]
pub struct RangeRequest {
    pub bucket: String,
    pub key: String,
    /// The value of the `Range` header.
    pub range: String,
    /// The value of the `If-Match` header, if there is to be one.
    pub if_match: Option<String>,
}

/// A [`RangeRequest`] with its strings as sequences of characters.
pub struct RangeRequestView {
    pub bucket: Seq<char>,
    pub key: Seq<char>,
    pub range: Seq<char>,
    pub if_match: Option<Seq<char>>,
}

/// What an optional string holds.
pub open spec fn text(s: Option<String>) -> Option<Seq<char>> {
    match s {
        Some(t) => Some(t@),
        None => None,
    }
}

impl View for RangeRequest {
    type V = RangeRequestView;

    open spec fn view(&self) -> RangeRequestView {
        RangeRequestView {
            bucket: self.bucket@,
            key: self.key@,
            range: self.range@,
            if_match: text(self.if_match),
        }
    }
}

/// How to reopen a download from a given byte.
#[derive(Debug)]
pub struct S3Reconnect {
    pub bucket: String,
    pub key: String,
    /// The entity tag that the object had when the download began, if the service gave one.
    pub etag: Option<String>,
}

/// An [`S3Reconnect`] with its strings as sequences of characters.
pub struct S3ReconnectView {
    pub bucket: Seq<char>,
    pub key: Seq<char>,
    pub etag: Option<Seq<char>>,
}

impl View for S3Reconnect {
    type V = S3ReconnectView;

    open spec fn view(&self) -> S3ReconnectView {
        S3ReconnectView { bucket: self.bucket@, key: self.key@, etag: text(self.etag) }
    }
}

impl S3ReconnectView {
    /// The request for the same object from byte `start` on, guarded by the entity tag where
    /// that is known.
    pub open spec fn request(self, start: nat) -> RangeRequestView {
        RangeRequestView {
            bucket: self.bucket,
            key: self.key,
            range: range_from(start),
            if_match: self.etag,
        }
    }
}

/// How to reopen the download of `key` from `bucket`, which began with the entity tag `etag`.
pub fn make_s3_reconnect(bucket: String, key: String, etag: Option<String>) -> (reconnect:
    S3Reconnect)
    ensures
        reconnect@ == (S3ReconnectView { bucket: bucket@, key: key@, etag: text(etag) }),
        reconnect.bucket@ == bucket@,
        reconnect.key@ == key@,
        reconnect.etag is Some <==> etag is Some,
        reconnect.etag matches Some(t) ==> t@ == etag->Some_0@,
{
    S3Reconnect { bucket, key, etag }
}

impl S3Reconnect {
    /// The request for the same object from byte `range_start` on. Where the entity tag is
    /// known the request is guarded by it, so that a replaced object is refused.
    pub fn request(&self, range_start: u64) -> (request: RangeRequest)
        ensures
            request@ == self@.request(range_start as nat),
            request.bucket@ == self.bucket@,
            request.key@ == self.key@,
            request.if_match is Some <==> self.etag is Some,
            request.if_match matches Some(t) ==> t@ == self.etag->Some_0@,
            request.range@.take(6) == seq!['b', 'y', 't', 'e', 's', '='],
            request.range@.last() == '-',
            request.range@.subrange(6, request.range@.len() - 1).fold_left(
                0int,
                |v: int, c: char| 10 * v + (c as int - '0' as int),
            ) == range_start,
    {
        proof {
            law_range_header_grammar(range_start as nat);
        }
        let mut range = "bytes=".to_owned();
        append_decimal(&mut range, range_start);
        range.append("-");
        let if_match = match &self.etag {
            Some(t) => Some(t.clone()),
            None => None,
        };
        RangeRequest { bucket: self.bucket.clone(), key: self.key.clone(), range, if_match }
    }
}

/// Reading the decimal form of a number gives the number back.
pub proof fn law_decimal_reads_back(n: nat)
    ensures
        decimal_value(decimal(n)) == n,
    decreases n,
{
    if n < 10 {
        reveal_with_fuel(decimal_value, 2);
        assert(decimal(n).drop_last() =~= Seq::<char>::empty());
    } else {
        law_decimal_reads_back(n / 10);
        assert(decimal(n).drop_last() =~= decimal(n / 10));
    }
}

/// The decimal form of `n` is made of digits, has no zero in front, and reads as `n` where `f`
/// is how a number grows by a digit.
proof fn lemma_decimal_folds_back(n: nat, f: spec_fn(int, char) -> int)
    requires
        forall|v: int, c: char| #[trigger] f(v, c) == 10 * v + (c as int - '0' as int),
    ensures
        decimal(n).fold_left(0int, f) == n,
        decimal(n).len() > 0,
        n > 0 ==> decimal(n)[0] != '0',
        n == 0 ==> decimal(n) == seq!['0'],
        forall|i: int| 0 <= i < decimal(n).len() ==> '0' <= #[trigger] decimal(n)[i] <= '9',
    decreases n,
{
    reveal_with_fuel(Seq::fold_left, 2);
    if n < 10 {
        assert(decimal(n).drop_last() =~= Seq::<char>::empty());
    } else {
        lemma_decimal_folds_back(n / 10, f);
        assert(decimal(n).drop_last() =~= decimal(n / 10));
        assert(decimal(n)[0] == decimal(n / 10)[0]);
    }
}

/// A `Range` header reads as "from this byte to the end": the unit, an equals sign, the number
/// of the byte in decimal digits without a zero in front, and a dash with nothing behind it.
pub proof fn law_range_header_grammar(start: nat)
    ensures
        ({
            let header = range_from(start);
            let number = header.subrange(6, header.len() - 1);
            &&& header.len() > 7
            &&& header.take(6) == seq!['b', 'y', 't', 'e', 's', '=']
            &&& header.last() == '-'
            &&& forall|i: int| 0 <= i < number.len() ==> '0' <= #[trigger] number[i] <= '9'
            &&& number.len() > 1 ==> number[0] != '0'
            &&& number.fold_left(0int, |v: int, c: char| 10 * v + (c as int - '0' as int)) == start
        }),
{
    reveal_strlit("bytes=");
    reveal_strlit("-");
    let header = range_from(start);
    assert(header.subrange(6, header.len() - 1) =~= decimal(start));
    assert(header.take(6) =~= seq!['b', 'y', 't', 'e', 's', '=']);
    lemma_decimal_folds_back(start, |v: int, c: char| 10 * v + (c as int - '0' as int));
}

/// A `Range` header names one byte only: requests that start at different bytes have different
/// headers.
pub proof fn law_range_header_names_one_start(m: nat, n: nat)
    requires
        range_from(m) == range_from(n),
    ensures
        m == n,
{
    reveal_strlit("bytes=");
    reveal_strlit("-");
    let (a, b) = (range_from(m), range_from(n));
    assert(a.subrange(6, a.len() - 1) =~= decimal(m));
    assert(b.subrange(6, b.len() - 1) =~= decimal(n));
    law_decimal_reads_back(m);
    law_decimal_reads_back(n);
}

/// All requests of a download are for the same object under the same guard. They differ in the
/// byte that they start at, and in nothing else.
pub proof fn law_requests_differ_in_start_only(reconnect: S3ReconnectView, m: nat, n: nat)
    ensures
        reconnect.request(m).bucket == reconnect.bucket,
        reconnect.request(m).key == reconnect.key,
        reconnect.request(m).if_match == reconnect.etag,
        reconnect.request(m) == reconnect.request(n) <==> m == n,
{
    if reconnect.request(m) == reconnect.request(n) {
        law_range_header_names_one_start(m, n);
    }
}

/// The views of a request and of the way to make one keep every character of their strings, and
/// whether there is a tag.
pub proof fn law_request_views(request: RangeRequest, reconnect: S3Reconnect)
    ensures
        request@.bucket == request.bucket@,
        request@.key == request.key@,
        request@.range == request.range@,
        request.if_match matches Some(t) ==> request@.if_match == Some(t@),
        request.if_match is None ==> request@.if_match is None,
        reconnect@.bucket == reconnect.bucket@,
        reconnect@.key == reconnect.key@,
        reconnect.etag matches Some(t) ==> reconnect@.etag == Some(t@),
        reconnect.etag is None ==> reconnect@.etag is None,
{
}

/// An optional string holds its characters, if it is there.
pub proof fn law_text(s: Option<String>)
    ensures
        s matches Some(t) ==> text(s) == Some(t@),
        s is None ==> text(s) is None,
{
}

} // verus!
