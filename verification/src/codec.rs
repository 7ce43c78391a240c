//! Byte codecs of the webhook signature: hexadecimal, MD5, form bodies, UTF-8.

use vstd::prelude::*;
use vstd::utf8::*;

verus! {

/// Whether `c` is a hexadecimal digit, in either case.
pub open spec fn is_hex_digit(c: u8) -> bool {
    48 <= c <= 57 || 65 <= c <= 70 || 97 <= c <= 102
}

/// The value of a hexadecimal digit.
pub open spec fn hex_digit_value(c: u8) -> int {
    if c <= 57 {
        c - 48
    } else if c <= 70 {
        c - 55
    } else {
        c - 87
    }
}

/// Whether a text is a row of whole bytes in hexadecimal.
pub open spec fn is_hex(text: Seq<u8>) -> bool {
    &&& text.len() % 2 == 0
    &&& forall|i: int| 0 <= i < text.len() ==> is_hex_digit(#[trigger] text[i])
}

/// The bytes that a hexadecimal text stands for: two digits each, the upper first.
pub open spec fn hex_bytes(text: Seq<u8>) -> Seq<u8> {
    Seq::new(
        text.len() / 2,
        |i: int| (16 * hex_digit_value(text[2 * i]) + hex_digit_value(text[2 * i + 1])) as u8,
    )
}

/// The error of the `hex` crate for a text that is no hexadecimal.
#[verifier::external_type_specification]
#[verifier::external_body]
pub struct ExFromHexError(hex::FromHexError);

/// `hex::decode`: succeeds on exactly the texts of even length that hold only
/// hexadecimal digits of either case, and gives the bytes they stand for. Which
/// error comes otherwise is left open.
#[verifier::external_body]
pub(crate) fn hex_decode(text: &[u8]) -> (r: Result<Vec<u8>, hex::FromHexError>)
    ensures
        r is Ok <==> is_hex(text@),
        r matches Ok(bytes) ==> bytes@ == hex_bytes(text@),
{
    hex::decode(text)
}

/// The MD5 digest of a message.
pub uninterp spec fn md5_digest(message: Seq<u8>) -> Seq<u8>;

/// `md5::compute`: the sixteen bytes of the message's digest, a function of the
/// message alone.
#[verifier::external_body]
pub(crate) fn md5_compute(message: &[u8]) -> (digest: Vec<u8>)
    ensures
        digest@ == md5_digest(message@),
        digest@.len() == 16,
{
    md5::compute(message).0.to_vec()
}

/// The name and value texts of a row of pairs.
pub open spec fn pair_views(pairs: Seq<(String, String)>) -> Seq<(Seq<char>, Seq<char>)> {
    pairs.map_values(|p: (String, String)| (p.0@, p.1@))
}

/// The pairs of an `application/x-www-form-urlencoded` body, in order; `None`
/// for a body that is refused.
pub uninterp spec fn form_decoded(body: Seq<u8>) -> Option<Seq<(Seq<char>, Seq<char>)>>;

/// The error of the `serde_urlencoded` crate for a body that is refused.
#[verifier::external_type_specification]
#[verifier::external_body]
pub struct ExFormError(serde_urlencoded::de::Error);

/// `serde_urlencoded::from_bytes`, read as a row of pairs: the percent-decoded
/// names and values in the order of the body, a function of the body alone.
#[verifier::external_body]
pub(crate) fn form_decode(body: &[u8]) -> (r: Result<
    Vec<(String, String)>,
    serde_urlencoded::de::Error,
>)
    ensures
        match r {
            Ok(pairs) => form_decoded(body@) == Some(pair_views(pairs@)),
            Err(_) => form_decoded(body@) is None,
        },
{
    serde_urlencoded::from_bytes::<Vec<(String, String)>>(body)
}

/// The text that a byte string is read as when broken UTF-8 is replaced.
pub uninterp spec fn utf8_lossy(bytes: Seq<u8>) -> Seq<char>;

/// `String::from_utf8_lossy`: bytes that are valid UTF-8 are read as they are;
/// in others what is invalid is replaced, which the name alone stands for.
#[verifier::external_body]
pub(crate) fn from_utf8_lossy(bytes: &[u8]) -> (text: String)
    ensures
        text@ == utf8_lossy(bytes@),
        valid_utf8(bytes@) ==> text@ == decode_utf8(bytes@),
{
    String::from_utf8_lossy(bytes).into_owned()
}

/// Which pairs have a name.
pub open spec fn named(name: Seq<char>) -> spec_fn((Seq<char>, Seq<char>)) -> bool {
    |p: (Seq<char>, Seq<char>)| p.0 == name
}

/// The value of a form field that has to occur exactly once.
pub open spec fn sole_value(pairs: Seq<(Seq<char>, Seq<char>)>, name: Seq<char>) -> Option<
    Seq<char>,
> {
    let found = pairs.filter(named(name));
    if found.len() == 1 {
        Some(found[0].1)
    } else {
        None
    }
}

/// Finds the value of a field that has to occur exactly once among the pairs.
pub fn sole_field(pairs: &Vec<(String, String)>, name: &str) -> (r: Option<String>)
    ensures
        match r {
            Some(value) => sole_value(pair_views(pairs@), name@) == Some(value@),
            None => sole_value(pair_views(pairs@), name@) is None,
        },
{
    let ghost views = pair_views(pairs@);
    let ghost wanted = named(name@);
    let key = name.to_owned();
    let mut found: Option<String> = None;
    let mut repeated = false;
    let mut i: usize = 0;
    assert(views.take(0).filter(wanted) =~= Seq::empty()) by {
        reveal(Seq::filter);
    }
    while i < pairs.len()
        invariant
            i <= pairs@.len(),
            views == pair_views(pairs@),
            wanted == named(name@),
            key@ == name@,
            ({
                let hits = views.take(i as int).filter(wanted);
                if repeated {
                    hits.len() >= 2
                } else {
                    match found {
                        Some(value) => hits.len() == 1 && hits[0].1 == value@,
                        None => hits.len() == 0,
                    }
                }
            }),
        decreases pairs@.len() - i,
    {
        let ghost before = views.take(i as int).filter(wanted);
        assert(views.take(i + 1).drop_last() =~= views.take(i as int));
        assert(views.take(i + 1).last() == views[i as int]);
        assert(views.take(i + 1).filter(wanted) == if wanted(views[i as int]) {
            before.push(views[i as int])
        } else {
            before
        }) by {
            reveal(Seq::filter);
        }
        if pairs[i].0 == key {
            if found.is_some() {
                repeated = true;
            }
            found = Some(pairs[i].1.clone());
        }
        i = i + 1;
    }
    assert(views.take(i as int) =~= views);
    if repeated {
        None
    } else {
        found
    }
}

/// The lower case hexadecimal text of a byte string.
pub open spec fn hex_text(bytes: Seq<u8>) -> Seq<u8> {
    Seq::new(
        2 * bytes.len(),
        |i: int|
            {
                let d = if i % 2 == 0 {
                    bytes[i / 2] / 16
                } else {
                    bytes[i / 2] % 16
                };
                if d < 10 {
                    (48 + d) as u8
                } else {
                    (87 + d) as u8
                }
            },
    )
}

/// A text with its ASCII capitals `A` to `F` made small.
pub open spec fn hex_lowered(text: Seq<u8>) -> Seq<u8> {
    text.map_values(
        |c: u8|
            if 65 <= c <= 70 {
                (c + 32) as u8
            } else {
                c
            },
    )
}

/// The hexadecimal text of a byte string shows each byte by two digits in lower case, the
/// upper first.
pub proof fn hex_text_shows_each_byte(bytes: Seq<u8>, i: int)
    requires
        0 <= i < bytes.len(),
    ensures
        hex_text(bytes).len() == 2 * bytes.len(),
        hex_text(bytes)[2 * i] as int == "0123456789abcdef"@[(bytes[i] / 16) as int] as int,
        hex_text(bytes)[2 * i + 1] as int == "0123456789abcdef"@[(bytes[i] % 16) as int] as int,
{
    reveal_strlit("0123456789abcdef");
    assert((2 * i) / 2 == i && (2 * i) % 2 == 0);
    assert((2 * i + 1) / 2 == i && (2 * i + 1) % 2 == 1);
}

/// A byte string is read back from its hexadecimal text.
pub proof fn hex_reads_back(bytes: Seq<u8>)
    ensures
        is_hex(hex_text(bytes)),
        hex_bytes(hex_text(bytes)) == bytes,
{
    let text = hex_text(bytes);
    assert forall|i: int| 0 <= i < text.len() implies is_hex_digit(#[trigger] text[i]) by {}
    assert forall|i: int| 0 <= i < bytes.len() implies hex_bytes(text)[i] == bytes[i] by {
        assert((2 * i) / 2 == i && (2 * i) % 2 == 0);
        assert((2 * i + 1) / 2 == i && (2 * i + 1) % 2 == 1);
        let b = bytes[i];
        assert(16 * (b / 16) + b % 16 == b);
    }
    assert(hex_bytes(text) =~= bytes);
}

/// The case of the digits does not matter: a text and its lowered form are
/// hexadecimal together and stand for the same bytes.
pub proof fn hex_case_is_ignored(text: Seq<u8>)
    ensures
        is_hex(hex_lowered(text)) == is_hex(text),
        is_hex(text) ==> hex_bytes(hex_lowered(text)) == hex_bytes(text),
{
    let low = hex_lowered(text);
    if is_hex(text) {
        assert(hex_bytes(low) =~= hex_bytes(text));
    } else if text.len() % 2 == 0 {
        let i = choose|i: int| 0 <= i < text.len() && !is_hex_digit(#[trigger] text[i]);
        assert(!is_hex_digit(low[i]));
    }
}

/// The bytes that a hexadecimal text stands for have the lowered text as theirs.
pub proof fn hex_text_is_lowered(text: Seq<u8>)
    requires
        is_hex(text),
    ensures
        hex_text(hex_bytes(text)) == hex_lowered(text),
{
    let bytes = hex_bytes(text);
    assert forall|i: int| 0 <= i < text.len() implies #[trigger] hex_text(bytes)[i]
        == hex_lowered(text)[i] by {
        let k = i / 2;
        assert(0 <= k < bytes.len());
        let upper = text[2 * k];
        let lower = text[2 * k + 1];
        assert(is_hex_digit(upper) && is_hex_digit(lower));
        assert(bytes[k] == 16 * hex_digit_value(upper) + hex_digit_value(lower));
        assert(bytes[k] / 16 == hex_digit_value(upper));
        assert(bytes[k] % 16 == hex_digit_value(lower));
        assert(i == 2 * k || i == 2 * k + 1);
    }
    assert(hex_text(bytes) =~= hex_lowered(text));
}

/// Whether the pair at `at` is the only one with this name.
pub open spec fn only_at(
    pairs: Seq<(Seq<char>, Seq<char>)>,
    name: Seq<char>,
    at: int,
) -> bool {
    &&& 0 <= at < pairs.len()
    &&& forall|i: int| 0 <= i < pairs.len() ==> ((#[trigger] pairs[i]).0 == name <==> i == at)
}

/// A field that occurs once among the pairs, wherever it stands and however many other
/// fields there are, is found with its own value.
pub proof fn field_that_stands_alone_is_found(
    pairs: Vec<(String, String)>,
    name: &str,
    at: int,
    found: Option<String>,
)
    requires
        call_ensures(sole_field, (&pairs, name), found),
        0 <= at < pairs@.len(),
        pairs@[at].0@ == name@,
        forall|i: int| 0 <= i < pairs@.len() && i != at ==> (#[trigger] pairs@[i]).0@ != name@,
    ensures
        found matches Some(value) && value@ == pairs@[at].1@,
{
    let views = pair_views(pairs@);
    assert forall|i: int| 0 <= i < views.len() implies ((#[trigger] views[i]).0 == name@ <==> i
        == at) by {
        assert(views[i].0 == pairs@[i].0@);
    }
    lemma_only_value(views, name@, at);
}

/// A field that is found occurs among the pairs, and does not occur again.
pub proof fn field_that_is_found_stands_alone(
    pairs: Vec<(String, String)>,
    name: &str,
    found: Option<String>,
)
    requires
        call_ensures(sole_field, (&pairs, name), found),
        found is Some,
    ensures
        exists|at: int|
            {
                &&& 0 <= at < pairs@.len()
                &&& (#[trigger] pairs@[at]).0@ == name@
                &&& pairs@[at].1@ == found->0@
            },
        forall|i: int, j: int|
            0 <= i < j < pairs@.len() && (#[trigger] pairs@[i]).0@ == name@ ==> (
            #[trigger] pairs@[j]).0@ != name@,
{
    let views = pair_views(pairs@);
    let at = lemma_value_stands_alone(views, name@);
    assert(views[at].0 == pairs@[at].0@ && views[at].1 == pairs@[at].1@);
    assert forall|i: int, j: int|
        0 <= i < j < pairs@.len() && (#[trigger] pairs@[i]).0@ == name@ implies (
    #[trigger] pairs@[j]).0@ != name@ by {
        assert(views[i].0 == name@ <==> i == at);
        assert(views[j].0 == name@ <==> j == at);
    }
}

/// The value of the only pair with a name is the name's sole value.
pub proof fn lemma_only_value(
    pairs: Seq<(Seq<char>, Seq<char>)>,
    name: Seq<char>,
    at: int,
)
    requires
        only_at(pairs, name, at),
    ensures
        sole_value(pairs, name) == Some(pairs[at].1),
{
    lemma_hits(pairs, name);
    assert(pairs.filter(named(name)) == seq![pairs[at]]);
}

/// A name with a sole value is that of one pair alone, whose value it is.
pub proof fn lemma_value_stands_alone(
    pairs: Seq<(Seq<char>, Seq<char>)>,
    name: Seq<char>,
) -> (at: int)
    requires
        sole_value(pairs, name) is Some,
    ensures
        only_at(pairs, name, at),
        sole_value(pairs, name) == Some(pairs[at].1),
{
    lemma_hits(pairs, name);
    let at = choose|at: int| #[trigger] only_at(pairs, name, at);
    lemma_only_value(pairs, name, at);
    at
}

proof fn lemma_hits(pairs: Seq<(Seq<char>, Seq<char>)>, name: Seq<char>)
    ensures
        ({
            let hits = pairs.filter(named(name));
            &&& hits.len() == 0 <==> (forall|i: int|
                0 <= i < pairs.len() ==> (#[trigger] pairs[i]).0 != name)
            &&& forall|at: int| #[trigger]
                only_at(pairs, name, at) ==> hits == seq![pairs[at]]
            &&& hits.len() == 1 ==> exists|at: int| #[trigger] only_at(pairs, name, at)
        }),
    decreases pairs.len(),
{
    reveal(Seq::filter);
    let wanted = named(name);
    let hits = pairs.filter(wanted);
    if pairs.len() > 0 {
        let front = pairs.drop_last();
        let last: int = pairs.len() - 1;
        let before = front.filter(wanted);
        lemma_hits(front, name);
        assert(forall|i: int| 0 <= i < last ==> front[i] == #[trigger] pairs[i]);
        if pairs[last].0 == name {
            assert(hits == before.push(pairs[last]));
            assert forall|at: int| #[trigger] only_at(pairs, name, at) implies hits == seq![
                pairs[at],
            ] by {
                assert(pairs[last].0 == name <==> last == at);
                assert forall|i: int| 0 <= i < front.len() implies (#[trigger] front[i]).0
                    != name by {
                    assert(pairs[i].0 == name <==> i == at);
                }
                assert(hits =~= seq![pairs[at]]);
            }
            if hits.len() == 1 {
                assert forall|i: int| 0 <= i < pairs.len() implies ((#[trigger] pairs[i]).0 == name
                    <==> i == last) by {
                    if i < last {
                        assert(front[i].0 != name);
                    }
                }
                assert(only_at(pairs, name, last));
            }
        } else {
            assert(hits == before);
            assert forall|at: int| #[trigger] only_at(pairs, name, at) implies hits == seq![
                pairs[at],
            ] by {
                assert(pairs[at].0 == name <==> at == at);
                assert(at != last);
                assert forall|i: int| 0 <= i < front.len() implies ((#[trigger] front[i]).0 == name
                    <==> i == at) by {
                    assert(pairs[i].0 == name <==> i == at);
                }
                assert(only_at(front, name, at));
            }
            if hits.len() == 1 {
                let at = choose|at: int| #[trigger] only_at(front, name, at);
                assert forall|i: int| 0 <= i < pairs.len() implies ((#[trigger] pairs[i]).0 == name
                    <==> i == at) by {
                    if i < last {
                        assert(front[i].0 == name <==> i == at);
                    }
                }
                assert(only_at(pairs, name, at));
            }
            if hits.len() == 0 {
                assert forall|i: int| 0 <= i < pairs.len() implies (#[trigger] pairs[i]).0
                    != name by {
                    if i < last {
                        assert(front[i].0 != name);
                    }
                }
            } else {
                let i = choose|i: int| 0 <= i < front.len() && (#[trigger] front[i]).0 == name;
                assert(pairs[i].0 == name);
            }
        }
    }
}

} // verus!
