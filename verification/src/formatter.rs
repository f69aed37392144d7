//! Rendering of records, spans and whole trace contexts to text.
//!
//! The default renderer draws the context as a tree: consecutive records
//! sharing an error-variant id form one node with a single header line, and
//! every record contributes one location line. The whole render is prefixed
//! by a one-line summary naming the outermost record's type.

use vstd::prelude::*;
use vstd::string::{StringExecFns, StringSliceAdditionalSpecFns};

use crate::display::spaces;
use crate::location::Location;
use crate::trace::{TraceContext, TraceRecord};

verus! {

/// What `textwrap::wrap` returns for `text` at `width` columns with
/// continuation lines prefixed by `indent`: the wrapped lines, in order.
/// The result depends on the arguments alone.
pub uninterp spec fn wrapped_lines(text: Seq<char>, width: int, indent: Seq<char>) -> Seq<
    Seq<char>,
>;

/// Relies on textwrap::wrap, with the given width and subsequent indent:
/// word-wraps `text` into lines. A text without line breaks that is
/// shorter than the width and has no trailing space stays a single
/// unchanged line, as the crate's single-line fast path shows.
#[verifier::external_body]
fn wrap_text(text: &str, width: usize, indent: &str) -> (r: Vec<String>)
    ensures
        r.deep_view() == wrapped_lines(text@, width as int, indent@),
        ((forall|i: int| 0 <= i < text@.len() ==> text@[i] != '\n') && text.spec_bytes().len()
            < width && (text@.len() == 0 || text@.last() != ' ')) ==> r.deep_view() == seq![text@],
{
    let opts = textwrap::Options::new(width).subsequent_indent(indent);
    let lines = textwrap::wrap(text, opts);
    lines.into_iter().map(|l| l.into_owned()).collect()
}

/// The wrapped lines flattened for output: each line followed by a line
/// break.
pub open spec fn lines_text(lines: Seq<Seq<char>>) -> Seq<char>
    decreases lines.len(),
{
    if lines.len() == 0 {
        Seq::empty()
    } else {
        lines[0] + "\n"@ + lines_text(lines.drop_first())
    }
}

/// The display text of the instance record `i` refers to, or empty once
/// the instance is no longer live.
pub open spec fn msg_of(c: TraceContext, i: int) -> Seq<char> {
    let o = c.trace@[i].origin as int;
    if o < c.instances@.len() && c.instances@[o].alive {
        c.instances@[o].data.message@
    } else {
        Seq::<char>::empty()
    }
}

/// Whether record `i` starts a node: the first record does, and so does
/// every record whose variant id differs from its predecessor's.
pub open spec fn node_at(s: Seq<TraceRecord>, i: int) -> bool {
    i == 0 || s[i].id != s[i - 1].id
}

/// Whether record `i`'s node renders a message: the first always does,
/// transparent wrappers otherwise render none of their own.
pub open spec fn fmt_error_at(s: Seq<TraceRecord>, i: int) -> bool {
    i == 0 || !s[i].is_transparent
}

/// Whether record `i` starts the last node of the trace.
pub open spec fn last_node_at(s: Seq<TraceRecord>, i: int) -> bool {
    node_at(s, i) && forall|j: int| i < j < s.len() ==> !node_at(s, j)
}

/// The hanging indent for wrapped message lines under a node header,
/// aligning continuation lines under the message.
pub open spec fn indent_for(name: Seq<char>) -> Seq<char> {
    "│   │"@ + Seq::new((vstd::utf8::encode_utf8(name).len() as usize) as nat, |i: int| ' ')
        + "  "@
}

/// The column width messages are wrapped to.
pub open spec fn wrap_width() -> int {
    70
}

/// The header line of record `i`'s node, or empty if `i` continues the
/// node of its predecessor.
pub open spec fn header_text(c: TraceContext, i: int) -> Seq<char> {
    let s = c.trace@;
    if node_at(s, i) {
        let glyph = if !(i + 1 < s.len()) || last_node_at(s, i) {
            "╰"@
        } else {
            "├"@
        };
        let prefix = glyph + "─▶ <"@ + s[i].name@ + ">"@;
        if fmt_error_at(s, i) {
            prefix + " "@ + lines_text(
                wrapped_lines(msg_of(c, i), wrap_width(), indent_for(s[i].name@)),
            )
        } else {
            prefix + "\n"@
        }
    } else {
        Seq::<char>::empty()
    }
}

/// The location line of record `i`, with the branch glyphs that its
/// position in the tree calls for.
pub open spec fn locline_text(c: TraceContext, i: int) -> Seq<char> {
    let s = c.trace@;
    let has_next = i + 1 < s.len();
    let cont = if !has_next || last_node_at(s, i) {
        " "@
    } else {
        "│"@
    };
    let branch = if !has_next || node_at(s, i + 1) {
        "╰"@
    } else {
        "├"@
    };
    let gap = if has_next && node_at(s, i + 1) {
        "\n│"@
    } else {
        Seq::<char>::empty()
    };
    let newline = if has_next {
        "\n"@
    } else {
        Seq::<char>::empty()
    };
    cont + "   "@ + branch + "╴ "@ + s[i].location.text() + gap + newline
}

/// The tree body from record `i` on.
pub open spec fn render_from(c: TraceContext, i: int) -> Seq<char>
    decreases c.trace@.len() - i,
{
    if i < 0 || i >= c.trace@.len() {
        Seq::<char>::empty()
    } else {
        header_text(c, i) + locline_text(c, i) + render_from(c, i + 1)
    }
}

/// The full tree render of a non-empty context: the summary line naming
/// the outermost record's type, then one node header per group of
/// consecutive records sharing a variant id, with one location line per
/// record.
pub open spec fn trace_text(c: TraceContext) -> Seq<char> {
    "Error: "@ + c.trace@.last().name@ + "\n"@ + render_from(c, 0)
}

/// The render of one record: its variant name, its instance's display
/// text while the instance is live, and its location.
pub open spec fn record_text(c: TraceContext, rec: TraceRecord) -> Seq<char> {
    let msg = if rec.origin < c.instances@.len() && c.instances@[rec.origin as int].alive {
        c.instances@[rec.origin as int].data.message@
    } else {
        Seq::<char>::empty()
    };
    "<"@ + rec.name@ + "> "@ + msg + " at "@ + rec.location.text()
}

/// The render of a span that owns a context: its variant name, its display
/// text, and the origin location of the occurrence.
pub open spec fn span_text(name: Seq<char>, message: Seq<char>, origin: Location) -> Seq<char> {
    name + ": "@ + message + "\n    at "@ + origin.text()
}

/// Renders one record.
pub fn format_record(rec: &TraceRecord, ctx: &TraceContext) -> (r: String)
    ensures
        r@ == record_text(*ctx, *rec),
{
    let mut out = String::new();
    out.append("<");
    out.append(rec.name.as_str());
    out.append("> ");
    match rec.error_ref(ctx) {
        Some(d) => out.append(d.message.as_str()),
        None => (),
    }
    out.append(" at ");
    out.append(rec.location.render().as_str());
    assert(out@ =~= record_text(*ctx, *rec));
    out
}

/// Renders the span-level summary of an occurrence: the top-level name and
/// message, and the origin location.
pub fn format_span(name: &str, message: &str, ctx: &TraceContext) -> (r: String)
    requires
        ctx.trace@.len() > 0,
    ensures
        r@ == span_text(name@, message@, ctx.trace@[0].location),
{
    let mut out = String::new();
    out.append(name);
    out.append(": ");
    out.append(message);
    out.append("\n    at ");
    out.append(ctx.first().location.render().as_str());
    assert(out@ =~= span_text(name@, message@, ctx.trace@[0].location));
    out
}

/// Appends each line followed by a line break.
fn append_lines(out: &mut String, lines: &Vec<String>)
    ensures
        final(out)@ == old(out)@ + lines_text(lines.deep_view()),
{
    let ghost ls = lines.deep_view();
    let n = lines.len();
    let mut i: usize = 0;
    proof {
        assert(ls.skip(0) =~= ls);
    }
    while i < n
        invariant
            n == lines@.len(),
            ls == lines.deep_view(),
            ls.len() == n,
            i <= n,
            out@ + lines_text(ls.skip(i as int)) == old(out)@ + lines_text(ls),
        decreases n - i,
    {
        proof {
            assert(ls.skip(i as int)[0] == ls[i as int]);
            assert(ls[i as int] == lines@[i as int]@);
            assert(ls.skip(i as int).drop_first() =~= ls.skip(i + 1));
        }
        let ghost pre = out@;
        out.append(lines[i].as_str());
        out.append("\n");
        proof {
            assert(out@ + lines_text(ls.skip(i + 1)) =~= pre + lines_text(ls.skip(i as int)));
        }
        i = i + 1;
    }
    proof {
        assert(ls.skip(n as int) =~= Seq::<Seq<char>>::empty());
        assert(out@ + lines_text(ls.skip(n as int)) =~= out@);
    }
}

/// Whether record `i` is the head of the last node, given the head's
/// position `ln`.
proof fn lemma_last_node_unique(s: Seq<TraceRecord>, ln: int, i: int)
    requires
        0 <= ln < s.len(),
        0 <= i < s.len(),
        last_node_at(s, ln),
    ensures
        last_node_at(s, i) <==> i == ln,
{
    if i != ln {
        if i < ln {
            assert(node_at(s, ln));
            assert(!last_node_at(s, i));
        } else {
            assert(!node_at(s, i));
            assert(!last_node_at(s, i));
        }
    }
}

/// Appends record `i`'s node header, if `i` starts a node.
fn append_header(out: &mut String, ctx: &TraceContext, i: usize, ln: usize)
    requires
        ctx.wf(),
        i < ctx.trace@.len(),
        ln < ctx.trace@.len(),
        last_node_at(ctx.trace@, ln as int),
    ensures
        final(out)@ == old(out)@ + header_text(*ctx, i as int),
{
    let ghost s = ctx.trace@;
    let ghost pre = out@;
    let n = ctx.trace.len();
    let rec = &ctx.trace[i];
    let is_node = i == 0 || rec.id.0 != ctx.trace[i - 1].id.0;
    let is_last_node = i == ln;
    let has_next = i + 1 < n;
    proof {
        assert(is_node == node_at(s, i as int));
        lemma_last_node_unique(s, ln as int, i as int);
    }
    if is_node {
        if !has_next || is_last_node {
            out.append("╰");
        } else {
            out.append("├");
        }
        out.append("─▶ <");
        out.append(rec.name.as_str());
        out.append(">");
        let fmt_error = i == 0 || !rec.is_transparent;
        if fmt_error {
            out.append(" ");
            let msg = match rec.error_ref(ctx) {
                Some(d) => d.message.clone(),
                None => String::new(),
            };
            assert(msg@ == msg_of(*ctx, i as int));
            let name_bytes = rec.name.as_str().len();
            let mut indent = String::new();
            indent.append("│   │");
            indent.append(spaces(name_bytes).as_str());
            indent.append("  ");
            proof {
                assert(name_bytes == vstd::utf8::encode_utf8(rec.name@).len() as usize);
                assert(indent@ =~= indent_for(rec.name@));
            }
            let lines = wrap_text(msg.as_str(), 70, indent.as_str());
            append_lines(out, &lines);
        } else {
            out.append("\n");
        }
        proof {
            assert(out@ =~= pre + header_text(*ctx, i as int));
        }
    }
}

/// Appends record `i`'s location line.
fn append_locline(out: &mut String, ctx: &TraceContext, i: usize, ln: usize)
    requires
        ctx.wf(),
        i < ctx.trace@.len(),
        ln < ctx.trace@.len(),
        last_node_at(ctx.trace@, ln as int),
    ensures
        final(out)@ == old(out)@ + locline_text(*ctx, i as int),
{
    let ghost s = ctx.trace@;
    let ghost pre = out@;
    let n = ctx.trace.len();
    let rec = &ctx.trace[i];
    let is_last_node = i == ln;
    let has_next = i + 1 < n;
    let next_is_node = has_next && ctx.trace[i + 1].id.0 != rec.id.0;
    proof {
        lemma_last_node_unique(s, ln as int, i as int);
        assert(has_next ==> next_is_node == node_at(s, i + 1));
    }
    if !has_next || is_last_node {
        out.append(" ");
    } else {
        out.append("│");
    }
    out.append("   ");
    if !has_next || next_is_node {
        out.append("╰");
    } else {
        out.append("├");
    }
    out.append("╴ ");
    out.append(rec.location.render().as_str());
    if has_next && next_is_node {
        out.append("\n│");
    }
    if has_next {
        out.append("\n");
    }
    proof {
        assert(out@ =~= pre + locline_text(*ctx, i as int));
    }
}

/// Renders the full tree of a non-empty context.
pub fn format_trace(ctx: &TraceContext) -> (r: String)
    requires
        ctx.wf(),
        ctx.trace@.len() > 0,
    ensures
        r@ == trace_text(*ctx),
{
    let n = ctx.trace.len();

    // Find the head of the last node, scanning newest first.
    let mut ln: usize = n - 1;
    while ln > 0 && ctx.trace[ln].id.0 == ctx.trace[ln - 1].id.0
        invariant
            ctx.trace@.len() == n,
            n > 0,
            ln < n,
            forall|j: int| ln < j < n ==> !node_at(ctx.trace@, j),
        decreases ln,
    {
        ln = ln - 1;
    }
    assert(node_at(ctx.trace@, ln as int));
    assert(last_node_at(ctx.trace@, ln as int));

    let mut out = String::new();
    out.append("Error: ");
    out.append(ctx.last().name.as_str());
    out.append("\n");
    proof {
        assert(out@ + render_from(*ctx, 0) =~= trace_text(*ctx));
    }
    let mut i: usize = 0;
    while i < n
        invariant
            ctx.wf(),
            ctx.trace@.len() == n,
            n > 0,
            i <= n,
            ln < n,
            last_node_at(ctx.trace@, ln as int),
            out@ + render_from(*ctx, i as int) == trace_text(*ctx),
        decreases n - i,
    {
        let ghost pre = out@;
        append_header(&mut out, ctx, i, ln);
        append_locline(&mut out, ctx, i, ln);
        proof {
            assert(out@ + render_from(*ctx, i + 1) =~= pre + render_from(*ctx, i as int));
        }
        i = i + 1;
    }
    proof {
        assert(render_from(*ctx, n as int) =~= Seq::<char>::empty());
        assert(out@ =~= trace_text(*ctx));
    }
    out
}

impl crate::trace::TraceContext {
    /// Renders the full trace with the default formatter, or a placeholder
    /// when no record exists.
    pub fn render(&self) -> (r: String)
        requires
            self.wf(),
        ensures
            self.trace@.len() > 0 ==> r@ == trace_text(*self),
            self.trace@.len() == 0 ==> r@ == "TraceContext empty"@,
    {
        if self.trace.len() == 0 {
            let mut out = String::new();
            out.append("TraceContext empty");
            assert(out@ =~= "TraceContext empty"@);
            out
        } else {
            format_trace(self)
        }
    }
}

impl crate::span::Span {
    /// Renders this span with the default formatter: while it owns the
    /// context, the span-level summary naming the span's error and the
    /// origin location of the occurrence; after a hand-off, the bare
    /// display text.
    pub fn render(&self) -> (r: String)
        requires
            self.wf(),
            self.ctx matches Some(c) ==> c.trace@.len() > 0,
        ensures
            self.ctx matches Some(c) ==> r@ == span_text(
                self.data.meta.name@,
                self.data.message@,
                c.trace@[0].location,
            ),
            self.ctx is None ==> r@ == self.data.message@,
    {
        match &self.ctx {
            Some(c) => format_span(self.data.meta.name.as_str(), self.data.message.as_str(), c),
            None => self.data.message.clone(),
        }
    }
}

/// A handler to format records, spans and trace contexts.
pub trait Formatter {
    /// Formats one record.
    fn format_record(&self, rec: &TraceRecord, ctx: &TraceContext) -> String;

    /// Formats the span-level summary of an occurrence.
    fn format_span(&self, name: &str, message: &str, ctx: &TraceContext) -> String
        requires
            ctx.trace@.len() > 0,
    ;

    /// Formats a whole trace context.
    fn format_trace(&self, ctx: &TraceContext) -> String
        requires
            ctx.wf(),
            ctx.trace@.len() > 0,
    ;
}

/// Default error formatter: the tree rendering above.
#[derive(Clone, Copy, Debug)]
pub struct ErrorFormatter;

impl Default for ErrorFormatter {
    fn default() -> (r: Self)
        ensures
            r == ErrorFormatter,
    {
        ErrorFormatter
    }
}

impl Formatter for ErrorFormatter {
    fn format_record(&self, rec: &TraceRecord, ctx: &TraceContext) -> String {
        format_record(rec, ctx)
    }

    fn format_span(&self, name: &str, message: &str, ctx: &TraceContext) -> String {
        format_span(name, message, ctx)
    }

    fn format_trace(&self, ctx: &TraceContext) -> String {
        format_trace(ctx)
    }
}

} // verus!
