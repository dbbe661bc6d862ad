//! Field serialization: one named field and its rendered value become a text
//! fragment appended to a buffer.
//!
//! A span-level field is always rendered with its name prefix; an event-level
//! field named exactly `message` is rendered as its value alone, so the
//! primary human-readable message is not cluttered with a `message:` label.

use vstd::prelude::*;
use vstd::string::StringSliceAdditionalSpecFns;

use crate::text::append_str;

verus! {

/// One named field together with its already-rendered (debug-formatted)
/// value text. Rendering a value of an arbitrary type to text is the
/// caller's capability; this library formats the resulting strings.
pub struct FieldText {
    pub name: String,
    pub value: String,
}

impl FieldText {
    /// The bytes of the field's name.
    pub open spec fn name_bytes(&self) -> Seq<u8> {
        vstd::utf8::encode_utf8(self.name@)
    }

    /// The bytes of the field's rendered value.
    pub open spec fn value_bytes(&self) -> Seq<u8> {
        vstd::utf8::encode_utf8(self.value@)
    }
}

/// The name-prefixed fragment of one field: `"  <name>: <value>,"`.
pub open spec fn field_fragment(name: Seq<u8>, value: Seq<u8>) -> Seq<u8> {
    seq![32u8, 32u8] + name + seq![58u8, 32u8] + value + seq![44u8]
}

/// One span-level field line: the fragment plus a trailing newline.
pub open spec fn span_field_line(name: Seq<u8>, value: Seq<u8>) -> Seq<u8> {
    field_fragment(name, value) + seq![10u8]
}

/// The bytes of the distinguished field name `message`.
pub open spec fn message_name() -> Seq<u8> {
    seq![109u8, 101u8, 115u8, 115u8, 97u8, 103u8, 101u8]
}

/// One event-level field line: a field named `message` is its value alone
/// plus a newline, every other field keeps the name-prefixed form.
pub open spec fn event_field_line(name: Seq<u8>, value: Seq<u8>) -> Seq<u8> {
    if name == message_name() {
        value + seq![10u8]
    } else {
        span_field_line(name, value)
    }
}

/// The buffer contents produced by capturing `fields` in order at the span
/// level: the concatenation of their span field lines.
pub open spec fn span_capture(fields: Seq<FieldText>) -> Seq<u8>
    decreases fields.len(),
{
    if fields.len() == 0 {
        Seq::empty()
    } else {
        span_capture(fields.drop_last()) + span_field_line(
            fields.last().name_bytes(),
            fields.last().value_bytes(),
        )
    }
}

/// The text produced by serializing `fields` in order at the event level:
/// the concatenation of their event field lines.
pub open spec fn event_capture(fields: Seq<FieldText>) -> Seq<u8>
    decreases fields.len(),
{
    if fields.len() == 0 {
        Seq::empty()
    } else {
        event_capture(fields.drop_last()) + event_field_line(
            fields.last().name_bytes(),
            fields.last().value_bytes(),
        )
    }
}

/// Appends the name-prefixed fragment `"  <name>: <value>,"` (no newline).
pub fn write_debug(buf: &mut Vec<u8>, name: &str, value: &str)
    ensures
        final(buf)@ == old(buf)@ + field_fragment(name.spec_bytes(), value.spec_bytes()),
{
    buf.push(32);
    buf.push(32);
    append_str(buf, name);
    buf.push(58);
    buf.push(32);
    append_str(buf, value);
    buf.push(44);
    proof {
        assert(buf@ =~= old(buf)@ + field_fragment(name.spec_bytes(), value.spec_bytes()));
    }
}

/// Whether `b` holds exactly the bytes of `message`.
fn is_message_name(b: &[u8]) -> (r: bool)
    ensures
        r == (b@ == message_name()),
{
    let r = b.len() == 7 && b[0] == 109 && b[1] == 101 && b[2] == 115 && b[3] == 115 && b[4] == 97
        && b[5] == 103 && b[6] == 101;
    proof {
        if r {
            assert(b@ =~= message_name());
        }
    }
    r
}

/// Appends one event-level field line, applying the `message` special case.
pub fn write_event_field(buf: &mut Vec<u8>, name: &str, value: &str)
    ensures
        final(buf)@ == old(buf)@ + event_field_line(name.spec_bytes(), value.spec_bytes()),
{
    if is_message_name(name.as_bytes()) {
        append_str(buf, value);
        buf.push(10);
        proof {
            assert(buf@ =~= old(buf)@ + event_field_line(
                name.spec_bytes(),
                value.spec_bytes(),
            ));
        }
    } else {
        write_debug(buf, name, value);
        buf.push(10);
        proof {
            assert(buf@ =~= old(buf)@ + event_field_line(
                name.spec_bytes(),
                value.spec_bytes(),
            ));
        }
    }
}

/// Serializes every field of `fields`, in order, at the event level.
pub fn write_event_fields(buf: &mut Vec<u8>, fields: &Vec<FieldText>)
    ensures
        final(buf)@ == old(buf)@ + event_capture(fields@),
{
    let mut i: usize = 0;
    while i < fields.len()
        invariant
            i <= fields.len(),
            buf@ == old(buf)@ + event_capture(fields@.take(i as int)),
        decreases fields.len() - i,
    {
        write_event_field(buf, fields[i].name.as_str(), fields[i].value.as_str());
        proof {
            assert(fields@.take(i as int + 1).drop_last() =~= fields@.take(i as int));
            assert(fields@.take(i as int + 1).last() == fields@[i as int]);
            assert(buf@ =~= old(buf)@ + event_capture(fields@.take(i as int + 1)));
        }
        i += 1;
    }
    proof {
        assert(fields@.take(fields@.len() as int) =~= fields@);
    }
}

/// Captures span fields into an owned buffer, one name-prefixed line per
/// field in call order. The recorded depth is the span's ancestor count at
/// capture time; it does not change what is written.
pub struct SpanVisitor {
    buf: Vec<u8>,
    depth: usize,
}

impl SpanVisitor {
    /// The bytes captured so far.
    pub closed spec fn contents(&self) -> Seq<u8> {
        self.buf@
    }

    /// The depth the visitor was created with.
    pub closed spec fn depth_at_capture(&self) -> usize {
        self.depth
    }

    /// A visitor that will append to `buf`, for a span with `depth`
    /// ancestors.
    pub fn new(buf: Vec<u8>, depth: usize) -> (v: SpanVisitor)
        ensures
            v.contents() == buf@,
            v.depth_at_capture() == depth,
    {
        SpanVisitor { buf, depth }
    }

    /// Records one field: appends its name-prefixed line. A span-level field
    /// named `message` keeps the prefix like any other field.
    pub fn record_debug(&mut self, name: &str, value: &str)
        ensures
            final(self).contents() == old(self).contents() + span_field_line(
                name.spec_bytes(),
                value.spec_bytes(),
            ),
            final(self).depth_at_capture() == old(self).depth_at_capture(),
    {
        write_debug(&mut self.buf, name, value);
        self.buf.push(10);
        proof {
            assert(self.buf@ =~= old(self).contents() + span_field_line(
                name.spec_bytes(),
                value.spec_bytes(),
            ));
        }
    }

    /// Records every field of `fields` in order.
    pub fn record_all(&mut self, fields: &Vec<FieldText>)
        ensures
            final(self).contents() == old(self).contents() + span_capture(fields@),
            final(self).depth_at_capture() == old(self).depth_at_capture(),
    {
        let mut i: usize = 0;
        while i < fields.len()
            invariant
                i <= fields.len(),
                self.contents() == old(self).contents() + span_capture(fields@.take(i as int)),
                self.depth_at_capture() == old(self).depth_at_capture(),
            decreases fields.len() - i,
        {
            self.record_debug(fields[i].name.as_str(), fields[i].value.as_str());
            proof {
                assert(fields@.take(i as int + 1).drop_last() =~= fields@.take(i as int));
                assert(fields@.take(i as int + 1).last() == fields@[i as int]);
                assert(self.contents() =~= old(self).contents() + span_capture(
                    fields@.take(i as int + 1),
                ));
            }
            i += 1;
        }
        proof {
            assert(fields@.take(fields@.len() as int) =~= fields@);
        }
    }

    /// Hands the captured buffer back.
    pub fn finish(self) -> (b: Vec<u8>)
        ensures
            b@ == self.contents(),
    {
        self.buf
    }
}

} // verus!
