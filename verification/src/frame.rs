//! Reading an octet-counted frame back: where the body starts, and that a
//! frame written by this crate gives back the body it was written from.

use vstd::prelude::*;
use crate::format::{framed, rfc5424_text, rfc5425_text, ContextView};
use crate::priority::Severity;
use crate::structured::SDElementView;
use crate::text::{decimal, decimal_value, is_digit, lemma_decimal_digits, lemma_decimal_value, SPACE};
use crate::timestamp::Timestamp;

verus! {

/// True when `frame` is a run of at least one digit, one space, and a body
/// that starts at `start` and is exactly as long as the digits say.
pub open spec fn well_framed(frame: Seq<u8>, start: int) -> bool {
    &&& 2 <= start <= frame.len()
    &&& frame[start - 1] == SPACE
    &&& forall|i: int| 0 <= i < start - 1 ==> is_digit(#[trigger] frame[i])
    &&& decimal_value(frame.subrange(0, start - 1)) == frame.len() - start
}

/// Where the body starts in a frame written for a body of `length` bytes:
/// behind the digits of the count and one space.
pub open spec fn body_offset(length: nat) -> int {
    decimal(length).len() as int + 1
}

/// A run of digits denotes at least as much as any of its prefixes.
pub proof fn lemma_decimal_value_grows(digits: Seq<u8>, k: int)
    requires
        0 <= k <= digits.len(),
        forall|i: int| 0 <= i < digits.len() ==> is_digit(#[trigger] digits[i]),
    ensures
        decimal_value(digits.subrange(0, k)) <= decimal_value(digits),
    decreases digits.len(),
{
    if k == digits.len() {
        assert(digits.subrange(0, k) == digits);
    } else {
        let shorter = digits.drop_last();
        lemma_decimal_value_grows(shorter, k);
        assert(shorter.subrange(0, k) == digits.subrange(0, k));
        assert(is_digit(digits[digits.len() - 1]));
    }
}

/// A frame has at most one place where its body can start.
pub proof fn lemma_body_start_unique(frame: Seq<u8>, a: int, b: int)
    requires
        well_framed(frame, a),
        well_framed(frame, b),
    ensures
        a == b,
{
    if a < b {
        assert(is_digit(frame[a - 1]));
    }
    if b < a {
        assert(is_digit(frame[b - 1]));
    }
}

/// A body put behind its octet count is well framed, its body starts right
/// behind the count and the space, and what stands there is the body again.
pub proof fn lemma_frame_round_trip(body: Seq<u8>)
    ensures
        well_framed(framed(body), body_offset(body.len())),
        framed(body).subrange(body_offset(body.len()), framed(body).len() as int) == body,
        decimal_value(framed(body).subrange(0, body_offset(body.len()) - 1)) == body.len(),
{
    let count = decimal(body.len());
    let frame = framed(body);
    lemma_decimal_digits(body.len());
    lemma_decimal_value(body.len());
    assert(frame.subrange(0, count.len() as int) == count);
    assert(frame.subrange(body_offset(body.len()), frame.len() as int) == body);
    assert forall|i: int| 0 <= i < count.len() implies is_digit(#[trigger] frame[i]) by {
        assert(frame[i] == count[i]);
    }
}

/// An octet-counted message is well framed, and its body is the structured
/// message of the same arguments.
pub proof fn lemma_rfc5425_holds_rfc5424(
    context: ContextView,
    severity: Severity,
    timestamp: Timestamp,
    msgid: Option<Seq<u8>>,
    elements: Seq<SDElementView>,
    message: Option<Seq<u8>>,
)
    ensures
        ({
            let body = rfc5424_text(context, severity, timestamp, msgid, elements, message);
            let frame = rfc5425_text(context, severity, timestamp, msgid, elements, message);
            let start = body_offset(body.len());
            &&& well_framed(frame, start)
            &&& frame.subrange(start, frame.len() as int) == body
            &&& decimal_value(frame.subrange(0, start - 1)) == body.len()
        }),
{
    lemma_frame_round_trip(rfc5424_text(context, severity, timestamp, msgid, elements, message));
}

/// Finds where the body of an octet-counted frame starts. The answer is
/// `None` exactly when the bytes are not a well-formed frame: no digit in
/// front, something other than digits before the first space, no space at
/// all, or a count that is not the length of what follows.
pub fn body_start(frame: &[u8]) -> (r: Option<usize>)
    ensures
        r matches Some(start) ==> well_framed(frame@, start as int),
        r is None ==> forall|s: int| !well_framed(frame@, s),
{
    let len: usize = frame.len();
    let mut i: usize = 0;
    let mut value: u128 = 0;
    while i < len
        invariant
            len == frame.len(),
            i <= len,
            forall|k: int| 0 <= k < i ==> is_digit(#[trigger] frame@[k]),
            value == decimal_value(frame@.subrange(0, i as int)),
            value <= len,
        decreases len - i,
    {
        let b: u8 = frame[i];
        if b == SPACE {
            if i >= 1 && value == (len - i - 1) as u128 {
                return Some(i + 1);
            }
            assert forall|s: int| !well_framed(frame@, s) by {
                if well_framed(frame@, s) {
                    if s - 1 < i {
                        assert(is_digit(frame@[s - 1]));
                    } else if s - 1 > i {
                        assert(is_digit(frame@[i as int]));
                    }
                }
            }
            return None;
        }
        if b < 48 || b > 57 {
            assert forall|s: int| !well_framed(frame@, s) by {
                if well_framed(frame@, s) {
                    if s - 1 < i {
                        assert(is_digit(frame@[s - 1]));
                    } else if s - 1 > i {
                        assert(is_digit(frame@[i as int]));
                    }
                }
            }
            return None;
        }
        let next: u128 = value * 10 + (b - 48) as u128;
        proof {
            let longer = frame@.subrange(0, i + 1);
            assert(longer.drop_last() == frame@.subrange(0, i as int));
            assert(longer.last() == b);
            assert(decimal_value(longer) == next);
        }
        if next > len as u128 {
            assert forall|s: int| !well_framed(frame@, s) by {
                if well_framed(frame@, s) {
                    if s - 1 < i {
                        assert(is_digit(frame@[s - 1]));
                    } else if s - 1 > i {
                        let digits = frame@.subrange(0, s - 1);
                        assert forall|k: int| 0 <= k < digits.len() implies is_digit(
                            #[trigger] digits[k],
                        ) by {
                            assert(digits[k] == frame@[k]);
                        }
                        lemma_decimal_value_grows(digits, i + 1);
                        assert(digits.subrange(0, i + 1) == frame@.subrange(0, i + 1));
                    }
                }
            }
            return None;
        }
        value = next;
        i += 1;
    }
    assert forall|s: int| !well_framed(frame@, s) by {
        if well_framed(frame@, s) {
            assert(is_digit(frame@[s - 1]));
        }
    }
    None
}

} // verus!
