//! The formatting layer: per-span field capture and per-event dispatch.
//!
//! A [`Layer`] owns a tag for the platform sink and a store mapping each
//! live span's identifier to the byte buffer of its captured fields. Span
//! lifecycle calls fill the store; an event call assembles one multi-line
//! text block from the event's own fields, its target and the active span
//! chain (root first), and hands it back as a [`LogRecord`] for the sink.

use std::collections::HashMap;
use vstd::prelude::*;
use vstd::string::StringSliceAdditionalSpecFns;

use crate::fields::{event_capture, span_capture, write_event_fields, FieldText, SpanVisitor};
use crate::text::{append_dec, append_quoted, append_str, dec_rep, quoted};

verus! {

broadcast use vstd::std_specs::hash::group_hash_axioms;

/// The platform's maximum logging-tag length, in bytes.
pub const MAX_TAG_LEN: usize = 23;

/// Severity of an event, mapped by the sink to the platform's own levels.
#[derive(Clone, Copy, PartialEq, Eq, Structural, Debug)]
pub enum Level {
    Error,
    Warn,
    Info,
    Debug,
    Trace,
}

/// The error of [`Layer::new`].
#[derive(Clone, Copy, PartialEq, Eq, Structural, Debug)]
pub enum TagError {
    /// The requested tag exceeds [`MAX_TAG_LEN`] bytes.
    TooLong,
}

/// A span's static metadata: source file path and line where known, and the
/// span's name.
pub struct SpanMeta {
    pub file: Option<String>,
    pub name: String,
    pub line: Option<u32>,
}

/// One entry of the active span chain handed to [`Layer::on_event`]: the
/// span's identifier (the key of its captured fields in the store) and its
/// static metadata.
pub struct SpanRef {
    pub id: u64,
    pub meta: SpanMeta,
}

/// One assembled log record, ready for a line-oriented platform sink bound
/// to a severity level and a capped identifier tag.
pub struct LogRecord {
    pub level: Level,
    pub tag: Vec<u8>,
    pub text: Vec<u8>,
}

/// The metadata fragment of one span: quoted file path (if known), `@` and
/// the span's name, `#` and the line number (if known); absent parts are
/// omitted without placeholders.
pub open spec fn meta_bytes(meta: SpanMeta) -> Seq<u8> {
    (match meta.file {
        Some(f) => quoted(vstd::utf8::encode_utf8(f@)),
        None => Seq::empty(),
    }) + seq![64u8] + vstd::utf8::encode_utf8(meta.name@) + (match meta.line {
        Some(l) => seq![35u8] + dec_rep(l as nat),
        None => Seq::empty(),
    })
}

/// The captured field buffer of span `id`, or empty if the store holds none.
pub open spec fn buffer_of(store: Map<u64, Seq<u8>>, id: u64) -> Seq<u8> {
    if store.contains_key(id) {
        store[id]
    } else {
        Seq::empty()
    }
}

/// One line of the hierarchy section: `#<idx> |> `, the span's metadata,
/// its field buffer wrapped in ` {\n...}` if non-empty else ` {}`, and a
/// newline.
pub open spec fn scope_line(idx: nat, meta: SpanMeta, buffer: Seq<u8>) -> Seq<u8> {
    seq![35u8] + dec_rep(idx) + seq![32u8, 124u8, 62u8, 32u8] + meta_bytes(meta) + (if buffer.len()
        > 0 {
        seq![32u8, 123u8, 10u8] + buffer + seq![125u8]
    } else {
        seq![32u8, 123u8, 125u8]
    }) + seq![10u8]
}

/// The first `n` lines of the hierarchy section for `scope`, indexed from
/// the root ancestor at index zero.
pub open spec fn scope_lines_upto(scope: Seq<SpanRef>, store: Map<u64, Seq<u8>>, n: int) -> Seq<u8>
    decreases n,
{
    if n <= 0 {
        Seq::empty()
    } else {
        scope_lines_upto(scope, store, n - 1) + scope_line(
            (n - 1) as nat,
            scope[n - 1].meta,
            buffer_of(store, scope[n - 1].id),
        )
    }
}

/// The whole hierarchy section: one line per span of `scope`, root first.
pub open spec fn scope_section(scope: Seq<SpanRef>, store: Map<u64, Seq<u8>>) -> Seq<u8> {
    scope_lines_upto(scope, store, scope.len() as int)
}

/// The full text block of one event: the event's own field lines, `|> ` and
/// the target, and — only when a span is active — `: \n` followed by the
/// hierarchy section.
pub open spec fn event_block(
    fields: Seq<FieldText>,
    target: Seq<u8>,
    scope: Seq<SpanRef>,
    store: Map<u64, Seq<u8>>,
) -> Seq<u8> {
    event_capture(fields) + seq![124u8, 62u8, 32u8] + target + (if scope.len() == 0 {
        Seq::empty()
    } else {
        seq![58u8, 32u8, 10u8] + scope_section(scope, store)
    })
}

/// Appends a span's metadata fragment: quoted file path (if known),
/// `@<name>`, and `#<line>` (if known), with no separators between parts.
pub fn put_metadata(buf: &mut Vec<u8>, meta: &SpanMeta)
    ensures
        final(buf)@ == old(buf)@ + meta_bytes(*meta),
{
    match &meta.file {
        Some(f) => {
            append_quoted(buf, f.as_str());
        },
        None => {},
    }
    buf.push(64);
    append_str(buf, meta.name.as_str());
    match meta.line {
        Some(l) => {
            buf.push(35);
            append_dec(buf, l as u64);
        },
        None => {},
    }
    proof {
        assert(buf@ =~= old(buf)@ + meta_bytes(*meta));
    }
}

/// The view of the span store: span identifier to captured buffer bytes.
pub open spec fn store_view(m: Map<u64, Vec<u8>>) -> Map<u64, Seq<u8>> {
    Map::new(|k: u64| m.contains_key(k), |k: u64| m[k]@)
}

/// The formatting layer. Holds the sink tag chosen at construction and the
/// per-span buffers of captured fields.
pub struct Layer {
    tag: Vec<u8>,
    spans: HashMap<u64, Vec<u8>>,
}

impl Layer {
    /// The bytes of the sink tag.
    pub closed spec fn tag_bytes(&self) -> Seq<u8> {
        self.tag@
    }

    /// The span store: each tracked span's identifier mapped to the bytes
    /// captured for it so far.
    pub closed spec fn store(&self) -> Map<u64, Seq<u8>> {
        store_view(self.spans@)
    }

    /// A layer whose records carry the tag `name`, with an empty span
    /// store. Returns an error exactly when `name` exceeds the platform's
    /// maximum tag length.
    pub fn new(name: &str) -> (r: Result<Layer, TagError>)
        ensures
            r is Ok <==> name.spec_bytes().len() <= MAX_TAG_LEN,
            r matches Ok(l) ==> l.tag_bytes() == name.spec_bytes() && l.store() == Map::<
                u64,
                Seq<u8>,
            >::empty(),
    {
        let bytes = name.as_bytes();
        if bytes.len() > MAX_TAG_LEN {
            return Err(TagError::TooLong);
        }
        let mut tag: Vec<u8> = Vec::new();
        tag.extend_from_slice(bytes);
        let layer = Layer { tag, spans: HashMap::new() };
        proof {
            assert(layer.tag@ =~= name.spec_bytes());
            assert(layer.store() =~= Map::<u64, Seq<u8>>::empty());
        }
        Ok(layer)
    }

    /// Span creation: captures `fields` in order into a fresh buffer and
    /// stores it under `id`, replacing any buffer already stored there.
    /// `depth` is the span's ancestor count at creation time.
    pub fn on_new_span(&mut self, id: u64, depth: usize, fields: &Vec<FieldText>)
        ensures
            final(self).store() == old(self).store().insert(id, span_capture(fields@)),
            final(self).tag_bytes() == old(self).tag_bytes(),
    {
        let mut visitor = SpanVisitor::new(Vec::new(), depth);
        visitor.record_all(fields);
        self.spans.insert(id, visitor.finish());
        proof {
            assert(self.store() =~= old(self).store().insert(id, span_capture(fields@)));
        }
    }

    /// Field update: appends `fields`, in order, to the buffer stored under
    /// `id`. Updates are strictly additive — a field set twice appears
    /// twice, in call order. An update for a span the store does not know
    /// leaves the layer unchanged.
    pub fn on_record(&mut self, id: u64, depth: usize, fields: &Vec<FieldText>)
        ensures
            old(self).store().contains_key(id) ==> final(self).store() == old(
                self,
            ).store().insert(id, old(self).store()[id] + span_capture(fields@)),
            !old(self).store().contains_key(id) ==> *final(self) == *old(self),
            final(self).tag_bytes() == old(self).tag_bytes(),
    {
        let existing: Option<Vec<u8>> = match self.spans.get(&id) {
            Some(b) => {
                let copy = b.clone();
                proof {
                    assert(copy@ =~= b@);
                }
                Some(copy)
            },
            None => None,
        };
        match existing {
            Some(buf) => {
                let mut visitor = SpanVisitor::new(buf, depth);
                visitor.record_all(fields);
                self.spans.insert(id, visitor.finish());
                proof {
                    assert(self.store() =~= old(self).store().insert(
                        id,
                        old(self).store()[id] + span_capture(fields@),
                    ));
                }
            },
            None => {},
        }
    }

    /// Event dispatch: assembles the event's text block and returns it as a
    /// record bound to `level` and this layer's tag. The block holds the
    /// event's own field lines (with the `message` special case), `|> ` and
    /// the target, and — when `scope` is non-empty — the hierarchy section,
    /// one line per span from root ancestor to active span.
    #[verifier::rlimit(30)]
    pub fn on_event(
        &self,
        level: Level,
        fields: &Vec<FieldText>,
        target: &str,
        scope: &Vec<SpanRef>,
    ) -> (r: LogRecord)
        ensures
            r.level == level,
            r.tag@ == self.tag_bytes(),
            r.text@ == event_block(fields@, target.spec_bytes(), scope@, self.store()),
    {
        let mut out: Vec<u8> = Vec::new();
        write_event_fields(&mut out, fields);
        out.push(124);
        out.push(62);
        out.push(32);
        append_str(&mut out, target);
        proof {
            assert(out@ =~= event_capture(fields@) + seq![124u8, 62u8, 32u8]
                + target.spec_bytes());
        }
        if scope.len() > 0 {
            out.push(58);
            out.push(32);
            out.push(10);
            let ghost pre = out@;
            proof {
                assert(pre =~= event_capture(fields@) + seq![124u8, 62u8, 32u8]
                    + target.spec_bytes() + seq![58u8, 32u8, 10u8]);
            }
            let mut i: usize = 0;
            while i < scope.len()
                invariant
                    i <= scope.len(),
                    out@ == pre + scope_lines_upto(scope@, self.store(), i as int),
                decreases scope.len() - i,
            {
                let ghost line_start = out@;
                out.push(35);
                append_dec(&mut out, i as u64);
                out.push(32);
                out.push(124);
                out.push(62);
                out.push(32);
                put_metadata(&mut out, &scope[i].meta);
                proof {
                    assert(out@ =~= line_start + seq![35u8] + dec_rep(i as nat) + seq![
                        32u8,
                        124u8,
                        62u8,
                        32u8,
                    ] + meta_bytes(scope[i as int].meta));
                }
                let sid = scope[i].id;
                match self.spans.get(&sid) {
                    Some(b) => {
                        if b.len() > 0 {
                            out.push(32);
                            out.push(123);
                            out.push(10);
                            out.extend_from_slice(b.as_slice());
                            out.push(125);
                        } else {
                            out.push(32);
                            out.push(123);
                            out.push(125);
                        }
                    },
                    None => {
                        out.push(32);
                        out.push(123);
                        out.push(125);
                    },
                }
                out.push(10);
                proof {
                    assert(out@ =~= line_start + scope_line(
                        i as nat,
                        scope[i as int].meta,
                        buffer_of(self.store(), scope[i as int].id),
                    ));
                    assert(out@ == pre + scope_lines_upto(scope@, self.store(), i as int + 1));
                }
                i += 1;
            }
        }
        let record = LogRecord { level, tag: self.tag.clone(), text: out };
        proof {
            assert(record.tag@ =~= self.tag@);
            assert(record.text@ =~= event_block(
                fields@,
                target.spec_bytes(),
                scope@,
                self.store(),
            ));
        }
        record
    }
}

} // verus!
