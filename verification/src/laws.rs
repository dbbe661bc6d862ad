//! Laws of the formatting pipeline, stated and proved once over the spec
//! model that every contract of this library speaks in.

use vstd::prelude::*;

use crate::fields::{
    event_capture, event_field_line, field_fragment, message_name, span_capture, span_field_line,
    FieldText,
};
use crate::layer::{buffer_of, event_block, scope_line, scope_lines_upto, scope_section, SpanRef};
use crate::text::dec_rep;

verus! {

/// Capturing two field sequences one after the other yields exactly the
/// concatenation of their captures: fragments appear in call order, none is
/// overwritten or deduplicated. Together with the contract of
/// `Layer::on_record` this pins the buffer produced by any sequence of
/// field-update calls on one span.
pub proof fn lemma_span_capture_append(a: Seq<FieldText>, b: Seq<FieldText>)
    ensures
        span_capture(a + b) == span_capture(a) + span_capture(b),
    decreases b.len(),
{
    if b.len() == 0 {
        assert(a + b =~= a);
        assert(span_capture(a) + span_capture(b) =~= span_capture(a));
    } else {
        lemma_span_capture_append(a, b.drop_last());
        assert((a + b).drop_last() =~= a + b.drop_last());
        assert((a + b).last() == b.last());
        assert(span_capture(a + b) =~= span_capture(a) + span_capture(b));
    }
}

/// The buffer left by a whole sequence of capture calls on one span, each
/// call contributing the capture of its own field list, in call order.
pub open spec fn capture_of_calls(calls: Seq<Seq<FieldText>>) -> Seq<u8>
    decreases calls.len(),
{
    if calls.len() == 0 {
        Seq::empty()
    } else {
        capture_of_calls(calls.drop_last()) + span_capture(calls.last())
    }
}

/// For any sequence of field-update calls on one span, the resulting buffer
/// is the same as capturing all the calls' fields in one pass, in order: no
/// call boundary reorders, drops or deduplicates a fragment.
pub proof fn lemma_capture_sequence(calls: Seq<Seq<FieldText>>)
    ensures
        capture_of_calls(calls) == span_capture(calls.flatten()),
    decreases calls.len(),
{
    calls.lemma_flatten_and_flatten_alt_are_equivalent();
    if calls.len() == 0 {
        assert(span_capture(calls.flatten_alt()) =~= Seq::<u8>::empty());
    } else {
        lemma_capture_sequence(calls.drop_last());
        calls.drop_last().lemma_flatten_and_flatten_alt_are_equivalent();
        lemma_span_capture_append(calls.drop_last().flatten(), calls.last());
    }
}

/// The span-level lines of a field sequence, one per field in order.
pub open spec fn span_line_seq(fields: Seq<FieldText>) -> Seq<Seq<u8>> {
    Seq::new(fields.len(), |i: int| span_field_line(fields[i].name_bytes(), fields[i].value_bytes()))
}

/// A span capture is precisely the flattening of its per-field lines, and
/// every line is the exact fragment `"  <name>: <value>,\n"` of its field.
pub proof fn lemma_span_capture_lines(fields: Seq<FieldText>)
    ensures
        span_capture(fields) == span_line_seq(fields).flatten(),
        span_line_seq(fields).len() == fields.len(),
        forall|i: int|
            0 <= i < fields.len() ==> #[trigger] span_line_seq(fields)[i] == field_fragment(
                fields[i].name_bytes(),
                fields[i].value_bytes(),
            ) + seq![10u8],
    decreases fields.len(),
{
    if fields.len() == 0 {
        assert(span_line_seq(fields) =~= Seq::<Seq<u8>>::empty());
        assert(Seq::<Seq<u8>>::empty().flatten() =~= Seq::<u8>::empty());
    } else {
        lemma_span_capture_lines(fields.drop_last());
        assert(span_line_seq(fields.drop_last()) =~= span_line_seq(fields).drop_last());
        span_line_seq(fields).lemma_flatten_and_flatten_alt_are_equivalent();
        span_line_seq(fields).drop_last().lemma_flatten_and_flatten_alt_are_equivalent();
        assert(span_line_seq(fields).flatten_alt() == span_line_seq(
            fields,
        ).drop_last().flatten_alt() + span_line_seq(fields).last());
    }
}

/// An event with no active span produces a block that ends immediately
/// after the target fragment: no hierarchy section follows, whatever the
/// span store holds.
pub proof fn lemma_event_block_no_scope(
    fields: Seq<FieldText>,
    target: Seq<u8>,
    store: Map<u64, Seq<u8>>,
)
    ensures
        event_block(fields, target, Seq::empty(), store) == event_capture(fields) + seq![
            124u8,
            62u8,
            32u8,
        ] + target,
{
    assert(event_block(fields, target, Seq::empty(), store) =~= event_capture(fields) + seq![
        124u8,
        62u8,
        32u8,
    ] + target);
}

/// The hierarchy lines of a span chain, one per span in root-to-leaf order.
pub open spec fn scope_line_seq(scope: Seq<SpanRef>, store: Map<u64, Seq<u8>>) -> Seq<Seq<u8>> {
    Seq::new(
        scope.len(),
        |i: int| scope_line(i as nat, scope[i].meta, buffer_of(store, scope[i].id)),
    )
}

proof fn lemma_scope_lines_upto_flatten(scope: Seq<SpanRef>, store: Map<u64, Seq<u8>>, n: int)
    requires
        0 <= n <= scope.len(),
    ensures
        scope_lines_upto(scope, store, n) == scope_line_seq(scope, store).take(n).flatten_alt(),
    decreases n,
{
    if n == 0 {
        assert(scope_line_seq(scope, store).take(0) =~= Seq::<Seq<u8>>::empty());
    } else {
        lemma_scope_lines_upto_flatten(scope, store, n - 1);
        assert(scope_line_seq(scope, store).take(n).drop_last() =~= scope_line_seq(
            scope,
            store,
        ).take(n - 1));
        assert(scope_line_seq(scope, store).take(n).last() == scope_line(
            (n - 1) as nat,
            scope[n - 1].meta,
            buffer_of(store, scope[n - 1].id),
        ));
    }
}

/// The hierarchy section of a chain of N spans is precisely the flattening
/// of N lines in root-to-leaf order; line i begins with `"#<i> |> "` and
/// ends with a newline.
pub proof fn lemma_scope_section_lines(scope: Seq<SpanRef>, store: Map<u64, Seq<u8>>)
    ensures
        scope_section(scope, store) == scope_line_seq(scope, store).flatten(),
        scope_line_seq(scope, store).len() == scope.len(),
        forall|i: int|
            0 <= i < scope.len() ==> (seq![35u8] + dec_rep(i as nat) + seq![
                32u8,
                124u8,
                62u8,
                32u8,
            ]).is_prefix_of(#[trigger] scope_line_seq(scope, store)[i]),
        forall|i: int|
            0 <= i < scope.len() ==> #[trigger] scope_line_seq(scope, store)[i].last() == 10u8,
{
    lemma_scope_lines_upto_flatten(scope, store, scope.len() as int);
    assert(scope_line_seq(scope, store).take(scope.len() as int) =~= scope_line_seq(scope, store));
    scope_line_seq(scope, store).lemma_flatten_and_flatten_alt_are_equivalent();
    assert forall|i: int| 0 <= i < scope.len() implies (seq![35u8] + dec_rep(i as nat) + seq![
        32u8,
        124u8,
        62u8,
        32u8,
    ]).is_prefix_of(#[trigger] scope_line_seq(scope, store)[i]) by {
        let head = seq![35u8] + dec_rep(i as nat) + seq![32u8, 124u8, 62u8, 32u8];
        let line = scope_line_seq(scope, store)[i];
        assert(line.take(head.len() as int) =~= head);
    }
    assert forall|i: int| 0 <= i < scope.len() implies #[trigger] scope_line_seq(scope, store)[i].last()
        == 10u8 by {
        assert(scope_line_seq(scope, store)[i].last() == 10u8);
    }
}

/// At the event level a field named exactly `message` is rendered as its
/// value alone plus a newline, while the same name captured as a span field
/// keeps the `"  message: "` prefix; every other name is rendered the same
/// way at both levels.
pub proof fn lemma_message_special_case(name: Seq<u8>, value: Seq<u8>)
    ensures
        event_field_line(message_name(), value) == value + seq![10u8],
        span_field_line(message_name(), value) == field_fragment(message_name(), value) + seq![
            10u8,
        ],
        name != message_name() ==> event_field_line(name, value) == span_field_line(name, value),
{
}

/// Without an active span chain the block does not depend on the span
/// store: repeating the same span-creation and field-update sequence and
/// emitting otherwise-identical events yields byte-identical blocks, since
/// the block is a function of the event's fields and target alone.
pub proof fn lemma_no_scope_block_ignores_store(
    fields: Seq<FieldText>,
    target: Seq<u8>,
    store1: Map<u64, Seq<u8>>,
    store2: Map<u64, Seq<u8>>,
)
    ensures
        event_block(fields, target, Seq::empty(), store1) == event_block(
            fields,
            target,
            Seq::empty(),
            store2,
        ),
{
    lemma_event_block_no_scope(fields, target, store1);
    lemma_event_block_no_scope(fields, target, store2);
}

} // verus!
