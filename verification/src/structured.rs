//! Structured-data elements: their names, their parameters, and how they are
//! written into a message.
//!
//! An element's identifier and the names of its parameters are checked when
//! the element is built, and a name with a forbidden byte is rejected there.
//! Parameter values are free text; the three bytes that would end a value or
//! an element too early are escaped when the value is written.

use vstd::prelude::*;
use vstd::string::StringSliceAdditionalSpecFns;
use vstd::utf8::encode_utf8;
use crate::text::{
    append_bytes, BACKSLASH, CLOSE_BRACKET, DELETE, EQUALS, MINUS, OPEN_BRACKET, QUOTE, SPACE,
};

verus! {

/// True for a byte that no identifier or parameter name may hold: a space,
/// `"`, `=`, `]`, or an ASCII control character.
///
/// Every byte of a multi-byte UTF-8 character is above the ASCII range, so a
/// name is free of these bytes exactly when it is free of these characters.
pub open spec fn forbidden_in_name(b: u8) -> bool {
    b <= SPACE || b == QUOTE || b == EQUALS || b == CLOSE_BRACKET || b == DELETE
}

/// A name is valid when none of its bytes is forbidden.
pub open spec fn valid_name(name: Seq<u8>) -> bool {
    forall|i: int| 0 <= i < name.len() ==> !forbidden_in_name(#[trigger] name[i])
}

/// True for the bytes that are escaped inside a parameter value: `"`, `\`
/// and `]`.
pub open spec fn needs_escape(b: u8) -> bool {
    b == QUOTE || b == BACKSLASH || b == CLOSE_BRACKET
}

/// One byte of a value as it is written: itself, behind a backslash where it
/// needs one.
pub open spec fn escaped_byte(b: u8) -> Seq<u8> {
    if needs_escape(b) {
        seq![BACKSLASH, b]
    } else {
        seq![b]
    }
}

/// A parameter value as it is written: each byte in turn, escaped where
/// needed.
pub open spec fn escaped(value: Seq<u8>) -> Seq<u8>
    decreases value.len(),
{
    if value.len() == 0 {
        Seq::empty()
    } else {
        escaped(value.drop_last()) + escaped_byte(value.last())
    }
}

/// One parameter as it is written: a space, the name, `="`, the escaped
/// value, `"`.
pub open spec fn param_text(name: Seq<u8>, value: Seq<u8>) -> Seq<u8> {
    seq![SPACE] + name + seq![EQUALS, QUOTE] + escaped(value) + seq![QUOTE]
}

/// The parameters of an element as they are written, in their order.
pub open spec fn params_text(params: Seq<(Seq<u8>, Seq<u8>)>) -> Seq<u8>
    decreases params.len(),
{
    if params.len() == 0 {
        Seq::empty()
    } else {
        params_text(params.drop_last()) + param_text(params.last().0, params.last().1)
    }
}

/// What an element holds: its identifier and its parameters as (name, value)
/// pairs, all as UTF-8 bytes.
pub struct SDElementView {
    pub id: Seq<u8>,
    pub params: Seq<(Seq<u8>, Seq<u8>)>,
}

/// One element as it is written: `[`, the identifier, the parameters, `]`.
pub open spec fn element_text(element: SDElementView) -> Seq<u8> {
    seq![OPEN_BRACKET] + element.id + params_text(element.params) + seq![CLOSE_BRACKET]
}

/// Several elements written one after the other, in their order.
pub open spec fn elements_text(elements: Seq<SDElementView>) -> Seq<u8>
    decreases elements.len(),
{
    if elements.len() == 0 {
        Seq::empty()
    } else {
        elements_text(elements.drop_last()) + element_text(elements.last())
    }
}

/// The structured-data field of a message: the elements in their order, or
/// the nil value `-` when there is none.
pub open spec fn structured_data_text(elements: Seq<SDElementView>) -> Seq<u8> {
    if elements.len() == 0 {
        seq![MINUS]
    } else {
        elements_text(elements)
    }
}

/// In an escaped value no `"`, `\` or `]` stands bare: each one either comes
/// right after a backslash, or is itself the backslash that escapes the byte
/// after it.
pub proof fn lemma_escaped_has_no_bare_special(value: Seq<u8>)
    ensures
        forall|j: int|
            0 <= j < escaped(value).len() && needs_escape(#[trigger] escaped(value)[j]) ==> {
                ||| (j > 0 && escaped(value)[j - 1] == BACKSLASH)
                ||| (escaped(value)[j] == BACKSLASH && j + 1 < escaped(value).len()
                    && needs_escape(escaped(value)[j + 1]))
            },
    decreases value.len(),
{
    if value.len() > 0 {
        lemma_escaped_has_no_bare_special(value.drop_last());
        let head = escaped(value.drop_last());
        let whole = escaped(value);
        assert(whole == head + escaped_byte(value.last()));
        assert forall|j: int| 0 <= j < whole.len() && needs_escape(#[trigger] whole[j]) implies {
            ||| (j > 0 && whole[j - 1] == BACKSLASH)
            ||| (whole[j] == BACKSLASH && j + 1 < whole.len() && needs_escape(whole[j + 1]))
        } by {
            if j < head.len() {
                assert(whole[j] == head[j]);
                assert(needs_escape(head[j]));
                if j > 0 {
                    assert(whole[j - 1] == head[j - 1]);
                }
                if j + 1 < head.len() {
                    assert(whole[j + 1] == head[j + 1]);
                }
            }
        }
    }
}

/// The escaped value of a sequence extended by one byte.
pub proof fn lemma_escaped_push(value: Seq<u8>, b: u8)
    ensures
        escaped(value.push(b)) == escaped(value) + escaped_byte(b),
{
    assert(value.push(b).drop_last() == value);
}

/// An escaped value read back: a backslash is dropped, and the byte behind it
/// is taken as it stands.
pub open spec fn unescaped(text: Seq<u8>) -> Seq<u8>
    decreases text.len(),
{
    if text.len() == 0 {
        Seq::empty()
    } else if text[0] == BACKSLASH && text.len() >= 2 {
        seq![text[1]] + unescaped(text.subrange(2, text.len() as int))
    } else {
        seq![text[0]] + unescaped(text.subrange(1, text.len() as int))
    }
}

/// Escaping goes through a concatenation piece by piece.
pub proof fn lemma_escaped_concat(a: Seq<u8>, b: Seq<u8>)
    ensures
        escaped(a + b) == escaped(a) + escaped(b),
    decreases b.len(),
{
    if b.len() == 0 {
        assert(a + b == a);
        assert(escaped(a) + escaped(b) == escaped(a));
    } else {
        lemma_escaped_concat(a, b.drop_last());
        assert((a + b).drop_last() == a + b.drop_last());
        assert((a + b).last() == b.last());
        assert(escaped(a + b) =~= escaped(a) + escaped(b));
    }
}

/// Escaping loses nothing: reading an escaped value back gives the value.
pub proof fn lemma_unescaped_escaped(value: Seq<u8>)
    ensures
        unescaped(escaped(value)) == value,
    decreases value.len(),
{
    if value.len() > 0 {
        let first = value[0];
        let rest = value.subrange(1, value.len() as int);
        assert(value == seq![first] + rest);
        lemma_escaped_concat(seq![first], rest);
        lemma_escaped_push(Seq::empty(), first);
        assert(seq![first] == Seq::<u8>::empty().push(first));
        assert(escaped(seq![first]) =~= escaped_byte(first));
        lemma_unescaped_escaped(rest);
        let text = escaped(value);
        if needs_escape(first) {
            assert(text[0] == BACKSLASH);
            assert(text[1] == first);
            assert(text.subrange(2, text.len() as int) =~= escaped(rest));
        } else {
            assert(text[0] == first);
            assert(text.subrange(1, text.len() as int) =~= escaped(rest));
        }
        assert(unescaped(text) =~= value);
    }
}

/// Why an element or a parameter was not accepted.
#[derive(Clone, Copy, Debug, PartialEq, Eq, Structural)]
pub enum SDError {
    /// The identifier holds a forbidden byte.
    InvalidId,
    /// The parameter's name holds a forbidden byte.
    InvalidParamName,
}

/// One parameter of an element.
#[derive(Debug)]
pub struct SDParam {
    name: String,
    value: String,
}

/// A structured-data element: an identifier and an ordered list of
/// parameters. Its identifier and parameter names are always valid names.
#[derive(Debug)]
pub struct SDElement {
    id: String,
    params: Vec<SDParam>,
}

impl SDParam {
    /// The parameter as a pair of byte strings.
    pub closed spec fn pair(self) -> (Seq<u8>, Seq<u8>) {
        (encode_utf8(self.name@), encode_utf8(self.value@))
    }
}

impl View for SDElement {
    type V = SDElementView;

    closed spec fn view(&self) -> SDElementView {
        SDElementView {
            id: encode_utf8(self.id@),
            params: self.params@.map_values(|p: SDParam| p.pair()),
        }
    }
}

/// The views of a list of elements, in their order.
pub open spec fn element_views(elements: Seq<SDElement>) -> Seq<SDElementView> {
    elements.map_values(|e: SDElement| e@)
}

/// Tells whether `name` is a valid identifier or parameter name.
pub fn is_valid_name(name: &str) -> (ok: bool)
    ensures
        ok == valid_name(name.spec_bytes()),
{
    let bytes = name.as_bytes();
    let mut i: usize = 0;
    while i < bytes.len()
        invariant
            i <= bytes.len(),
            bytes@ == name.spec_bytes(),
            forall|k: int| 0 <= k < i ==> !forbidden_in_name(#[trigger] bytes@[k]),
        decreases bytes.len() - i,
    {
        let b: u8 = bytes[i];
        if b <= SPACE || b == QUOTE || b == EQUALS || b == CLOSE_BRACKET || b == DELETE {
            assert(forbidden_in_name(bytes@[i as int]));
            return false;
        }
        i += 1;
    }
    true
}

/// Appends `value` to `out` with `"`, `\` and `]` each behind a backslash.
pub fn append_escaped(out: &mut Vec<u8>, value: &[u8])
    ensures
        final(out)@ == old(out)@ + escaped(value@),
{
    let mut i: usize = 0;
    while i < value.len()
        invariant
            i <= value.len(),
            out@ == old(out)@ + escaped(value@.subrange(0, i as int)),
        decreases value.len() - i,
    {
        let b: u8 = value[i];
        proof {
            lemma_escaped_push(value@.subrange(0, i as int), b);
            assert(value@.subrange(0, i + 1) == value@.subrange(0, i as int).push(b));
        }
        if b == QUOTE || b == BACKSLASH || b == CLOSE_BRACKET {
            out.push(BACKSLASH);
        }
        out.push(b);
        i += 1;
        assert(out@ =~= old(out)@ + escaped(value@.subrange(0, i as int)));
    }
    assert(value@.subrange(0, i as int) == value@);
}

impl SDElement {
    /// True when the identifier and every parameter name are valid names.
    /// Every element that `new` and `add_param` produce is well formed.
    pub open spec fn wf(&self) -> bool {
        &&& valid_name(self@.id)
        &&& forall|i: int|
            0 <= i < self@.params.len() ==> valid_name((#[trigger] self@.params[i]).0)
    }

    /// An element with the given identifier and no parameters. An identifier
    /// that holds a forbidden byte is rejected.
    pub fn new(id: &str) -> (r: Result<SDElement, SDError>)
        ensures
            valid_name(id.spec_bytes()) ==> (r matches Ok(e) && e.wf() && e@ == (SDElementView {
                id: id.spec_bytes(),
                params: Seq::empty(),
            })),
            !valid_name(id.spec_bytes()) ==> r matches Err(SDError::InvalidId),
    {
        if !is_valid_name(id) {
            return Err(SDError::InvalidId);
        }
        let e = SDElement { id: id.to_owned(), params: Vec::new() };
        assert(e@.params =~= Seq::empty());
        Ok(e)
    }

    /// Adds a parameter behind those already there. A name that holds a
    /// forbidden byte is rejected, and the element stays as it was.
    pub fn add_param(&mut self, name: &str, value: &str) -> (r: Result<(), SDError>)
        ensures
            valid_name(name.spec_bytes()) ==> r is Ok && final(self)@ == (SDElementView {
                id: old(self)@.id,
                params: old(self)@.params.push((name.spec_bytes(), value.spec_bytes())),
            }),
            !valid_name(name.spec_bytes()) ==> (r matches Err(SDError::InvalidParamName)
                && *final(self) == *old(self)),
            old(self).wf() ==> final(self).wf(),
    {
        if !is_valid_name(name) {
            return Err(SDError::InvalidParamName);
        }
        let param = SDParam { name: name.to_owned(), value: value.to_owned() };
        self.params.push(param);
        assert(self@.params =~= old(self)@.params.push((name.spec_bytes(), value.spec_bytes())));
        Ok(())
    }

    /// The identifier.
    pub fn id(&self) -> (id: &str)
        ensures
            id.spec_bytes() == self@.id,
    {
        self.id.as_str()
    }

    /// The number of parameters.
    pub fn param_count(&self) -> (n: usize)
        ensures
            n == self@.params.len(),
    {
        self.params.len()
    }

    /// Appends the element as it is written, `[id name="value" ...]`, to
    /// `out`.
    pub fn append_to(&self, out: &mut Vec<u8>)
        ensures
            final(out)@ == old(out)@ + element_text(self@),
    {
        out.push(OPEN_BRACKET);
        append_bytes(out, self.id.as_str().as_bytes());
        let mut i: usize = 0;
        while i < self.params.len()
            invariant
                i <= self.params.len(),
                out@ == old(out)@ + seq![OPEN_BRACKET] + self@.id + params_text(
                    self@.params.subrange(0, i as int),
                ),
            decreases self.params.len() - i,
        {
            let param = &self.params[i];
            let ghost before = out@;
            proof {
                assert(self@.params.subrange(0, i + 1).drop_last() == self@.params.subrange(
                    0,
                    i as int,
                ));
                assert(self@.params.subrange(0, i + 1).last() == param.pair());
            }
            out.push(SPACE);
            append_bytes(out, param.name.as_str().as_bytes());
            out.push(EQUALS);
            out.push(QUOTE);
            append_escaped(out, param.value.as_str().as_bytes());
            out.push(QUOTE);
            assert(out@ =~= before + param_text(param.pair().0, param.pair().1));
            i += 1;
            assert(out@ =~= old(out)@ + seq![OPEN_BRACKET] + self@.id + params_text(
                self@.params.subrange(0, i as int),
            ));
        }
        assert(self@.params.subrange(0, i as int) == self@.params);
        out.push(CLOSE_BRACKET);
        assert(out@ =~= old(out)@ + element_text(self@));
    }
}

/// Appends the structured-data field to `out`: the elements in their order,
/// or `-` when there is none.
pub fn append_structured_data(out: &mut Vec<u8>, elements: &[SDElement])
    ensures
        final(out)@ == old(out)@ + structured_data_text(element_views(elements@)),
{
    if elements.len() == 0 {
        out.push(MINUS);
        assert(out@ =~= old(out)@ + structured_data_text(element_views(elements@)));
        return;
    }
    let ghost views = element_views(elements@);
    let mut i: usize = 0;
    while i < elements.len()
        invariant
            i <= elements.len(),
            views == element_views(elements@),
            out@ == old(out)@ + elements_text(views.subrange(0, i as int)),
        decreases elements.len() - i,
    {
        proof {
            assert(views.subrange(0, i + 1).drop_last() == views.subrange(0, i as int));
            assert(views.subrange(0, i + 1).last() == elements@[i as int]@);
        }
        elements[i].append_to(out);
        i += 1;
        assert(out@ =~= old(out)@ + elements_text(views.subrange(0, i as int)));
    }
    assert(views.subrange(0, i as int) == views);
}

} // verus!
