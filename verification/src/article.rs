//! An article as markup: a title, tags and paragraphs, each in an element of
//! its own, in the order in which they were written.

use crate::text::{join, non_empty, paragraphs, paragraphs_of, split, split_on, texts};
use crate::text::{free_of, is_line, paragraphs_of_joined_lines, split_undoes_join};
use vstd::prelude::*;
use vstd::string::StringExecFns;

verus! {

/// One element: `text` as it stands, between an opening and a closing tag.
pub open spec fn element(open: Seq<char>, text: Seq<char>, close: Seq<char>) -> Seq<char> {
    open + text + close
}

/// One element for each of `items`, the first of them first, with nothing
/// between two elements.
pub open spec fn elements(open: Seq<char>, items: Seq<Seq<char>>, close: Seq<char>) -> Seq<char>
    decreases items.len(),
{
    if items.len() == 0 {
        Seq::empty()
    } else {
        elements(open, items.drop_last(), close) + element(open, items.last(), close)
    }
}

/// The element that holds the title.
pub open spec fn title_element(title: Seq<char>) -> Seq<char> {
    element("<h1>"@, title, "</h1>"@)
}

/// The elements of the tags, one for each.
pub open spec fn tag_elements(tags: Seq<Seq<char>>) -> Seq<char> {
    elements("<div class=\"tag\">"@, tags, "</div>"@)
}

/// The elements of the paragraphs, one for each.
pub open spec fn paragraph_elements(lines: Seq<Seq<char>>) -> Seq<char> {
    elements("<p>"@, lines, "</p>"@)
}

/// The markup of an article with this title, these tags and these
/// paragraphs: a header with the title and the tags, then the paragraphs.
pub open spec fn article(title: Seq<char>, tags: Seq<Seq<char>>, lines: Seq<Seq<char>>) -> Seq<
    char,
> {
    "<article><header>"@ + title_element(title) + element(
        "<div class=\"tags\">"@,
        tag_elements(tags),
        "</div>"@,
    ) + "</header>"@ + paragraph_elements(lines) + "</article>"@
}

/// The markup for what the three fields of the form hold: the tags are the
/// parts of `tags` between colons, the paragraphs the lines of `content` that
/// are not empty.
pub open spec fn article_markup(title: Seq<char>, tags: Seq<char>, content: Seq<char>) -> Seq<
    char,
> {
    article(title, split(tags, ':'), paragraphs(content))
}

/// Appends one element for each of `items` to `out`, in their order.
fn push_elements(out: &mut String, open: &str, items: &Vec<&str>, close: &str)
    ensures
        final(out)@ == old(out)@ + elements(open@, texts(items@), close@),
{
    let mut i: usize = 0;
    while i < items.len()
        invariant
            i <= items.len(),
            out@ == old(out)@ + elements(open@, texts(items@).take(i as int), close@),
        decreases items.len() - i,
    {
        assert(texts(items@).take(i + 1).drop_last() =~= texts(items@).take(i as int));
        out.append(open);
        out.append(items[i]);
        out.append(close);
        i = i + 1;
    }
    assert(texts(items@).take(i as int) =~= texts(items@));
}

/// The markup of an article, in one line. The title and every tag and
/// paragraph stand in it as they were written: no character of them is
/// replaced. An empty `tags` gives one empty tag, an empty `content` no
/// paragraph.
pub fn generate_html(title: &str, tags: &str, content: &str) -> (html: String)
    ensures
        html@ == article_markup(title@, tags@, content@),
{
    let tag_list = split_on(tags, ':');
    let lines = paragraphs_of(content);
    let mut html = String::from_str("<article><header>");
    html.append("<h1>");
    html.append(title);
    html.append("</h1>");
    html.append("<div class=\"tags\">");
    push_elements(&mut html, "<div class=\"tag\">", &tag_list, "</div>");
    html.append("</div>");
    html.append("</header>");
    push_elements(&mut html, "<p>", &lines, "</p>");
    html.append("</article>");
    assert(html@ =~= article_markup(title@, tags@, content@));
    html
}

/// The markup of an article whose fields may be missing: where the form
/// gives all three, their markup; where it withholds any, nothing.
pub fn generate_if_complete(title: Option<&str>, tags: Option<&str>, content: Option<&str>) -> (html:
    Option<String>)
    ensures
        match (title, tags, content) {
            (Some(title), Some(tags), Some(content)) => html is Some && html->0@ == article_markup(
                title@,
                tags@,
                content@,
            ),
            _ => html is None,
        },
{
    match (title, tags, content) {
        (Some(title), Some(tags), Some(content)) => Some(generate_html(title, tags, content)),
        _ => None,
    }
}

/// The elements of two lists, one list after the other, are the elements of
/// the first followed by those of the second: every item has its element at
/// its own place, and no element is merged with another or left out.
pub proof fn elements_keep_order(
    open: Seq<char>,
    first: Seq<Seq<char>>,
    second: Seq<Seq<char>>,
    close: Seq<char>,
)
    ensures
        elements(open, first + second, close) == elements(open, first, close) + elements(
            open,
            second,
            close,
        ),
    decreases second.len(),
{
    if second.len() > 0 {
        elements_keep_order(open, first, second.drop_last(), close);
        assert((first + second).drop_last() =~= first + second.drop_last());
    }
}

/// What is written comes out as written: for every title, every list of at
/// least one tag without a colon, and every list of lines, the markup for
/// the tags joined by colons and the lines joined by line feeds is the
/// article with that title, those tags in that order, and those lines that
/// are not empty, in that order.
pub proof fn markup_of_joined_fields(
    title: Seq<char>,
    tags: Seq<Seq<char>>,
    written: Seq<Seq<char>>,
)
    requires
        tags.len() >= 1,
        free_of(tags, ':'),
        forall|i: int| 0 <= i < written.len() ==> is_line(#[trigger] written[i]),
    ensures
        article_markup(title, join(tags, ':'), join(written, '\n')) == article(
            title,
            tags,
            non_empty(written),
        ),
{
    split_undoes_join(tags, ':');
    paragraphs_of_joined_lines(written);
}

} // verus!
