//! Turning a toast message into styled content.
//!
//! A message is written in lightweight markup (emphasis, bold, paragraphs).
//! An outside renderer turns the markup into an HTML fragment; this module
//! wraps the fragment in a fixed document that fixes the font size, centers
//! the text and keeps it on one line, ready for the platform's rich-text
//! machinery. The document text is pinned exactly: a fixed head naming the
//! font size in pixels, the rendered fragment, and a fixed tail.

use vstd::prelude::*;

verus! {

/// The decimal digit character for `d`.
pub open spec fn digit_char(d: int) -> char {
    if d == 0 { '0' }
    else if d == 1 { '1' }
    else if d == 2 { '2' }
    else if d == 3 { '3' }
    else if d == 4 { '4' }
    else if d == 5 { '5' }
    else if d == 6 { '6' }
    else if d == 7 { '7' }
    else if d == 8 { '8' }
    else { '9' }
}

/// The decimal digits of `n`, most significant first, with no sign and no
/// leading zero (the number zero is the single digit `0`).
pub open spec fn dec_digits(n: nat) -> Seq<char>
    decreases n,
{
    if n < 10 {
        seq![digit_char(n as int)]
    } else {
        dec_digits(n / 10) + seq![digit_char((n % 10) as int)]
    }
}

/// Appends the single decimal digit `d` to `out`.
fn push_digit(out: &mut String, d: u64)
    requires
        d < 10,
    ensures
        final(out)@ == old(out)@ + seq![digit_char(d as int)],
{
    let s: &str = if d == 0 { "0" }
        else if d == 1 { "1" }
        else if d == 2 { "2" }
        else if d == 3 { "3" }
        else if d == 4 { "4" }
        else if d == 5 { "5" }
        else if d == 6 { "6" }
        else if d == 7 { "7" }
        else if d == 8 { "8" }
        else { "9" };
    proof {
        reveal_strlit("0");
        reveal_strlit("1");
        reveal_strlit("2");
        reveal_strlit("3");
        reveal_strlit("4");
        reveal_strlit("5");
        reveal_strlit("6");
        reveal_strlit("7");
        reveal_strlit("8");
        reveal_strlit("9");
        assert(s@ =~= seq![digit_char(d as int)]);
    }
    out.append(s);
}

/// Appends the decimal digits of `n` to `out`.
fn push_decimal(out: &mut String, n: u64)
    ensures
        final(out)@ == old(out)@ + dec_digits(n as nat),
    decreases n,
{
    if n >= 10 {
        push_decimal(out, n / 10);
        push_digit(out, n % 10);
        proof {
            assert(out@ =~= old(out)@ + dec_digits(n as nat));
        }
    } else {
        push_digit(out, n);
    }
}

/// What the outside markup renderer yields for a message: the HTML fragment
/// of its markup. The result depends on the characters of the message alone.
pub uninterp spec fn html_of(message: Seq<char>) -> Seq<char>;

/// Relies on `markdown::to_html`: turns markup into an HTML fragment, never
/// fails with its default options, and the result depends on the input text
/// alone.
#[verifier::external_body]
fn render_markup(message: &str) -> (r: String)
    ensures
        r@ == html_of(message@),
{
    markdown::to_html(message)
}

/// The document text up to the font size.
pub open spec fn doc_head_front() -> Seq<char> {
    "<html><head><meta charset=\"utf-8\"/><style>body { font: caption; font-size: "@
}

/// The document text between the font size and the rendered fragment.
pub open spec fn doc_head_back() -> Seq<char> {
    "px; } p { display: inline-block; text-align: center; }</style></head><body>"@
}

/// The document text after the rendered fragment.
pub open spec fn doc_tail() -> Seq<char> {
    "</body>"@
}

/// The full styled document for a message rendered to `body`, at
/// `font_size` pixels: fixed head, the font size in decimal, fixed middle,
/// the fragment, fixed tail.
pub open spec fn spec_document(font_size: nat, body: Seq<char>) -> Seq<char> {
    doc_head_front() + dec_digits(font_size) + doc_head_back() + body + doc_tail()
}

/// Renders `message`'s markup and wraps it in the styled document for
/// `font_size` pixels.
pub fn document_for(message: &str, font_size: u64) -> (doc: String)
    ensures
        doc@ == spec_document(font_size as nat, html_of(message@)),
{
    let mut doc = String::from_str(
        "<html><head><meta charset=\"utf-8\"/><style>body { font: caption; font-size: ",
    );
    push_decimal(&mut doc, font_size);
    doc.append("px; } p { display: inline-block; text-align: center; }</style></head><body>");
    let body = render_markup(message);
    doc.append(body.as_str());
    doc.append("</body>");
    proof {
        assert(doc@ =~= spec_document(font_size as nat, html_of(message@)));
    }
    doc
}

} // verus!
