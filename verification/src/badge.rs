//! The badge renderer: a pure function from (label, message, color) to a
//! fixed-geometry vector image, 96 by 20 logical units, two segments, the
//! text doubled as a visible layer over a drop shadow.
//!
//! Label and message are escaped before interpolation, so markup-significant
//! characters in uncontrolled input cannot break the image apart; the color
//! is interpolated as given, it is the caller's hex string.

use vstd::prelude::*;
use crate::text::push_char;

verus! {

/// The characters that are significant in markup text and attributes.
pub open spec fn is_markup_char(c: char) -> bool {
    c == '&' || c == '<' || c == '>' || c == '"' || c == '\''
}

/// A string with no markup-significant character in it.
pub open spec fn spec_markup_clean(s: Seq<char>) -> bool {
    forall|i: int| 0 <= i < s.len() ==> !is_markup_char(s[i])
}

/// The escape of one character.
pub open spec fn spec_escape_char(c: char) -> Seq<char> {
    if c == '&' {
        "&amp;"@
    } else if c == '<' {
        "&lt;"@
    } else if c == '>' {
        "&gt;"@
    } else if c == '"' {
        "&quot;"@
    } else if c == '\'' {
        "&#39;"@
    } else {
        seq![c]
    }
}

/// The escape of a whole string, character by character.
pub open spec fn spec_escape(s: Seq<char>) -> Seq<char>
    decreases s.len(),
{
    if s.len() == 0 {
        Seq::empty()
    } else {
        spec_escape(s.drop_last()) + spec_escape_char(s.last())
    }
}

/// Escapes markup-significant characters, exactly as `spec_escape` says.
pub fn escape_markup(s: &str) -> (r: String)
    ensures
        r@ == spec_escape(s@),
{
    let n = s.unicode_len();
    let mut out = String::new();
    let mut i: usize = 0;
    while i < n
        invariant
            i <= n,
            n == s@.len(),
            out@ == spec_escape(s@.take(i as int)),
        decreases n - i,
    {
        let c = s.get_char(i);
        if c == '&' {
            out.append("&amp;");
        } else if c == '<' {
            out.append("&lt;");
        } else if c == '>' {
            out.append("&gt;");
        } else if c == '"' {
            out.append("&quot;");
        } else if c == '\'' {
            out.append("&#39;");
        } else {
            push_char(&mut out, c);
        }
        proof {
            assert(s@.take(i + 1).drop_last() =~= s@.take(i as int));
            assert(s@.take(i + 1).last() == s@[i as int]);
        }
        i += 1;
    }
    proof {
        assert(s@.take(n as int) =~= s@);
    }
    out
}

/// The badge image text, as a function of the three inputs alone: rendering
/// is deterministic, two calls on equal inputs give byte-identical output.
pub open spec fn spec_badge(label: Seq<char>, message: Seq<char>, color: Seq<char>) -> Seq<char> {
    "<svg xmlns=\"http://www.w3.org/2000/svg\" xmlns:xlink=\"http://www.w3.org/1999/xlink\" width=\"96\" height=\"20\" role=\"img\" aria-label=\""@
        + spec_escape(label) + ": "@ + spec_escape(message) + "\">\n  <title>"@ + spec_escape(label)
        + ": "@ + spec_escape(message)
        + "</title>\n  <linearGradient id=\"s\" x2=\"0\" y2=\"100%\">\n    <stop offset=\"0\" stop-color=\"#bbb\" stop-opacity=\".1\"/>\n    <stop offset=\"1\" stop-opacity=\".1\"/>\n  </linearGradient>\n  <clipPath id=\"r\">\n    <rect width=\"96\" height=\"20\" rx=\"3\" fill=\"#fff\"/>\n  </clipPath>\n  <g clip-path=\"url(#r)\">\n    <rect width=\"61\" height=\"20\" fill=\"#555\"/>\n    <rect x=\"61\" width=\"35\" height=\"20\" fill=\""@
        + color
        + "\"/>\n    <rect width=\"96\" height=\"20\" fill=\"url(#s)\"/>\n  </g>\n  <g fill=\"#fff\" text-anchor=\"middle\" font-family=\"Verdana,Geneva,DejaVu Sans,sans-serif\" text-rendering=\"geometricPrecision\" font-size=\"110\">\n    <text aria-hidden=\"true\" x=\"315\" y=\"150\" fill=\"#010101\" fill-opacity=\".3\" transform=\"scale(.1)\" textLength=\"510\">"@
        + spec_escape(label)
        + "</text>\n    <text x=\"315\" y=\"140\" transform=\"scale(.1)\" fill=\"#fff\" textLength=\"510\">"@
        + spec_escape(label)
        + "</text>\n    <text aria-hidden=\"true\" x=\"775\" y=\"150\" fill=\"#010101\" fill-opacity=\".3\" transform=\"scale(.1)\" textLength=\"250\">"@
        + spec_escape(message)
        + "</text>\n    <text x=\"775\" y=\"140\" transform=\"scale(.1)\" fill=\"#fff\" textLength=\"250\">"@
        + spec_escape(message) + "</text>\n  </g>\n</svg>"@
}

/// Renders the badge, exactly as `spec_badge` says: pure, total, and
/// deterministic, whatever the three strings hold.
pub fn generate_badge(label: &str, message: &str, color: &str) -> (r: String)
    ensures
        r@ == spec_badge(label@, message@, color@),
{
    let esc_label = escape_markup(label);
    let esc_message = escape_markup(message);
    let mut out = String::from_str(
        "<svg xmlns=\"http://www.w3.org/2000/svg\" xmlns:xlink=\"http://www.w3.org/1999/xlink\" width=\"96\" height=\"20\" role=\"img\" aria-label=\"",
    );
    out.append(esc_label.as_str());
    out.append(": ");
    out.append(esc_message.as_str());
    out.append("\">\n  <title>");
    out.append(esc_label.as_str());
    out.append(": ");
    out.append(esc_message.as_str());
    out.append(
        "</title>\n  <linearGradient id=\"s\" x2=\"0\" y2=\"100%\">\n    <stop offset=\"0\" stop-color=\"#bbb\" stop-opacity=\".1\"/>\n    <stop offset=\"1\" stop-opacity=\".1\"/>\n  </linearGradient>\n  <clipPath id=\"r\">\n    <rect width=\"96\" height=\"20\" rx=\"3\" fill=\"#fff\"/>\n  </clipPath>\n  <g clip-path=\"url(#r)\">\n    <rect width=\"61\" height=\"20\" fill=\"#555\"/>\n    <rect x=\"61\" width=\"35\" height=\"20\" fill=\"",
    );
    out.append(color);
    out.append(
        "\"/>\n    <rect width=\"96\" height=\"20\" fill=\"url(#s)\"/>\n  </g>\n  <g fill=\"#fff\" text-anchor=\"middle\" font-family=\"Verdana,Geneva,DejaVu Sans,sans-serif\" text-rendering=\"geometricPrecision\" font-size=\"110\">\n    <text aria-hidden=\"true\" x=\"315\" y=\"150\" fill=\"#010101\" fill-opacity=\".3\" transform=\"scale(.1)\" textLength=\"510\">",
    );
    out.append(esc_label.as_str());
    out.append(
        "</text>\n    <text x=\"315\" y=\"140\" transform=\"scale(.1)\" fill=\"#fff\" textLength=\"510\">",
    );
    out.append(esc_label.as_str());
    out.append(
        "</text>\n    <text aria-hidden=\"true\" x=\"775\" y=\"150\" fill=\"#010101\" fill-opacity=\".3\" transform=\"scale(.1)\" textLength=\"250\">",
    );
    out.append(esc_message.as_str());
    out.append(
        "</text>\n    <text x=\"775\" y=\"140\" transform=\"scale(.1)\" fill=\"#fff\" textLength=\"250\">",
    );
    out.append(esc_message.as_str());
    out.append("</text>\n  </g>\n</svg>");
    proof {
        assert(out@ =~= spec_badge(label@, message@, color@));
    }
    out
}

/// Whether `needle` occurs contiguously somewhere in `haystack`.
pub open spec fn contains_seq(haystack: Seq<char>, needle: Seq<char>) -> bool {
    exists|i: int|
        0 <= i && i + needle.len() <= haystack.len() && #[trigger] haystack.subrange(
            i,
            i + needle.len(),
        ) == needle
}

/// The middle part of a three-way concatenation occurs in the whole.
proof fn lemma_concat_contains(a: Seq<char>, b: Seq<char>, c: Seq<char>)
    ensures
        contains_seq(a + b + c, b),
{
    let h = a + b + c;
    let i = a.len() as int;
    assert(h.subrange(i, i + b.len()) =~= b);
}

/// Escaping changes nothing on a string with no markup-significant
/// character.
pub proof fn lemma_escape_clean_identity(s: Seq<char>)
    requires
        spec_markup_clean(s),
    ensures
        spec_escape(s) == s,
    decreases s.len(),
{
    if s.len() == 0 {
        assert(spec_escape(s) =~= s);
    } else {
        assert(spec_markup_clean(s.drop_last()));
        lemma_escape_clean_identity(s.drop_last());
        assert(!is_markup_char(s.last()));
        assert(spec_escape(s) =~= s);
    }
}

/// The badge always carries its label and message: for texts with no
/// markup-significant characters, the output contains them literally.
#[verifier::rlimit(100)]
pub proof fn lemma_badge_contains_texts(label: Seq<char>, message: Seq<char>, color: Seq<char>)
    requires
        spec_markup_clean(label),
        spec_markup_clean(message),
    ensures
        contains_seq(spec_badge(label, message, color), label),
        contains_seq(spec_badge(label, message, color), message),
{
    lemma_escape_clean_identity(label);
    lemma_escape_clean_identity(message);
    let h = spec_badge(label, message, color);
    let head = "<svg xmlns=\"http://www.w3.org/2000/svg\" xmlns:xlink=\"http://www.w3.org/1999/xlink\" width=\"96\" height=\"20\" role=\"img\" aria-label=\""@;
    let after_label = ": "@ + spec_escape(message) + "\">\n  <title>"@ + spec_escape(label) + ": "@
        + spec_escape(message)
        + "</title>\n  <linearGradient id=\"s\" x2=\"0\" y2=\"100%\">\n    <stop offset=\"0\" stop-color=\"#bbb\" stop-opacity=\".1\"/>\n    <stop offset=\"1\" stop-opacity=\".1\"/>\n  </linearGradient>\n  <clipPath id=\"r\">\n    <rect width=\"96\" height=\"20\" rx=\"3\" fill=\"#fff\"/>\n  </clipPath>\n  <g clip-path=\"url(#r)\">\n    <rect width=\"61\" height=\"20\" fill=\"#555\"/>\n    <rect x=\"61\" width=\"35\" height=\"20\" fill=\""@
        + color
        + "\"/>\n    <rect width=\"96\" height=\"20\" fill=\"url(#s)\"/>\n  </g>\n  <g fill=\"#fff\" text-anchor=\"middle\" font-family=\"Verdana,Geneva,DejaVu Sans,sans-serif\" text-rendering=\"geometricPrecision\" font-size=\"110\">\n    <text aria-hidden=\"true\" x=\"315\" y=\"150\" fill=\"#010101\" fill-opacity=\".3\" transform=\"scale(.1)\" textLength=\"510\">"@
        + spec_escape(label)
        + "</text>\n    <text x=\"315\" y=\"140\" transform=\"scale(.1)\" fill=\"#fff\" textLength=\"510\">"@
        + spec_escape(label)
        + "</text>\n    <text aria-hidden=\"true\" x=\"775\" y=\"150\" fill=\"#010101\" fill-opacity=\".3\" transform=\"scale(.1)\" textLength=\"250\">"@
        + spec_escape(message)
        + "</text>\n    <text x=\"775\" y=\"140\" transform=\"scale(.1)\" fill=\"#fff\" textLength=\"250\">"@
        + spec_escape(message) + "</text>\n  </g>\n</svg>"@;
    assert(h =~= head + label + after_label);
    lemma_concat_contains(head, label, after_label);
    let before_message = head + label + ": "@;
    let after_message = "\">\n  <title>"@ + spec_escape(label) + ": "@ + spec_escape(message)
        + "</title>\n  <linearGradient id=\"s\" x2=\"0\" y2=\"100%\">\n    <stop offset=\"0\" stop-color=\"#bbb\" stop-opacity=\".1\"/>\n    <stop offset=\"1\" stop-opacity=\".1\"/>\n  </linearGradient>\n  <clipPath id=\"r\">\n    <rect width=\"96\" height=\"20\" rx=\"3\" fill=\"#fff\"/>\n  </clipPath>\n  <g clip-path=\"url(#r)\">\n    <rect width=\"61\" height=\"20\" fill=\"#555\"/>\n    <rect x=\"61\" width=\"35\" height=\"20\" fill=\""@
        + color
        + "\"/>\n    <rect width=\"96\" height=\"20\" fill=\"url(#s)\"/>\n  </g>\n  <g fill=\"#fff\" text-anchor=\"middle\" font-family=\"Verdana,Geneva,DejaVu Sans,sans-serif\" text-rendering=\"geometricPrecision\" font-size=\"110\">\n    <text aria-hidden=\"true\" x=\"315\" y=\"150\" fill=\"#010101\" fill-opacity=\".3\" transform=\"scale(.1)\" textLength=\"510\">"@
        + spec_escape(label)
        + "</text>\n    <text x=\"315\" y=\"140\" transform=\"scale(.1)\" fill=\"#fff\" textLength=\"510\">"@
        + spec_escape(label)
        + "</text>\n    <text aria-hidden=\"true\" x=\"775\" y=\"150\" fill=\"#010101\" fill-opacity=\".3\" transform=\"scale(.1)\" textLength=\"250\">"@
        + spec_escape(message)
        + "</text>\n    <text x=\"775\" y=\"140\" transform=\"scale(.1)\" fill=\"#fff\" textLength=\"250\">"@
        + spec_escape(message) + "</text>\n  </g>\n</svg>"@;
    assert(h =~= before_message + message + after_message);
    lemma_concat_contains(before_message, message, after_message);
}

/// The badge always carries its color string, whatever the three inputs
/// hold.
#[verifier::rlimit(100)]
pub proof fn lemma_badge_contains_color(label: Seq<char>, message: Seq<char>, color: Seq<char>)
    ensures
        contains_seq(spec_badge(label, message, color), color),
{
    let h = spec_badge(label, message, color);
    let before_color = "<svg xmlns=\"http://www.w3.org/2000/svg\" xmlns:xlink=\"http://www.w3.org/1999/xlink\" width=\"96\" height=\"20\" role=\"img\" aria-label=\""@
        + spec_escape(label) + ": "@ + spec_escape(message) + "\">\n  <title>"@ + spec_escape(label)
        + ": "@ + spec_escape(message)
        + "</title>\n  <linearGradient id=\"s\" x2=\"0\" y2=\"100%\">\n    <stop offset=\"0\" stop-color=\"#bbb\" stop-opacity=\".1\"/>\n    <stop offset=\"1\" stop-opacity=\".1\"/>\n  </linearGradient>\n  <clipPath id=\"r\">\n    <rect width=\"96\" height=\"20\" rx=\"3\" fill=\"#fff\"/>\n  </clipPath>\n  <g clip-path=\"url(#r)\">\n    <rect width=\"61\" height=\"20\" fill=\"#555\"/>\n    <rect x=\"61\" width=\"35\" height=\"20\" fill=\""@;
    let after_color = "\"/>\n    <rect width=\"96\" height=\"20\" fill=\"url(#s)\"/>\n  </g>\n  <g fill=\"#fff\" text-anchor=\"middle\" font-family=\"Verdana,Geneva,DejaVu Sans,sans-serif\" text-rendering=\"geometricPrecision\" font-size=\"110\">\n    <text aria-hidden=\"true\" x=\"315\" y=\"150\" fill=\"#010101\" fill-opacity=\".3\" transform=\"scale(.1)\" textLength=\"510\">"@
        + spec_escape(label)
        + "</text>\n    <text x=\"315\" y=\"140\" transform=\"scale(.1)\" fill=\"#fff\" textLength=\"510\">"@
        + spec_escape(label)
        + "</text>\n    <text aria-hidden=\"true\" x=\"775\" y=\"150\" fill=\"#010101\" fill-opacity=\".3\" transform=\"scale(.1)\" textLength=\"250\">"@
        + spec_escape(message)
        + "</text>\n    <text x=\"775\" y=\"140\" transform=\"scale(.1)\" fill=\"#fff\" textLength=\"250\">"@
        + spec_escape(message) + "</text>\n  </g>\n</svg>"@;
    assert(h =~= before_color + color + after_color);
    lemma_concat_contains(before_color, color, after_color);
}

} // verus!
