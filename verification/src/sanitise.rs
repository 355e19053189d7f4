use crate::credit::texts_of;
use crate::text::{replace_char, replaced};
use vstd::prelude::*;

verus! {

/// The HTML that is left of `html` when only the elements named by `tags`
/// are let through: every other element gives way to its content, script
/// and style elements go with their content, and what is left is written
/// out again as well-formed HTML.
pub uninterp spec fn cleaned_html(html: Seq<char>, tags: Seq<Seq<char>>) -> Seq<char>;

/// The elements that a feed lets through: line breaks and paragraphs.
pub open spec fn allowed_tags() -> Seq<Seq<char>> {
    seq!["br"@, "p"@]
}

/// `text` made safe for a feed: each newline becomes a line break, then
/// everything but the allowed elements is taken out.
pub open spec fn sanitised(text: Seq<char>) -> Seq<char> {
    cleaned_html(replaced(text, '\n', "<br>"@), allowed_tags())
}

/// `ammonia::Builder::clean` with ammonia's defaults but for the allowed
/// elements, which are `tags`. ammonia panics when asked to let through an
/// element whose content it drops, so `script` and `style` are kept out.
#[verifier::external_body]
fn ammonia_clean(html: &str, tags: &Vec<&'static str>) -> (clean: String)
    requires
        forall|i: int| 0 <= i < tags.len() ==> tags[i]@ != "script"@ && tags[i]@ != "style"@,
    ensures
        clean@ == cleaned_html(html@, texts_of(tags@)),
{
    ammonia::Builder::new().tags(tags.iter().copied().collect()).clean(html).to_string()
}

/// Makes `text` safe for a feed.
pub fn sanitise_text(text: &str) -> (clean: String)
    ensures
        clean@ == sanitised(text@),
{
    let html = replace_char(text, '\n', "<br>");
    let mut tags: Vec<&'static str> = Vec::new();
    tags.push("br");
    tags.push("p");
    proof {
        reveal_strlit("br");
        reveal_strlit("p");
        reveal_strlit("script");
        reveal_strlit("style");
        assert(texts_of(tags@) =~= allowed_tags());
        assert("br"@.len() == 2 && "p"@.len() == 1);
        assert("script"@.len() == 6 && "style"@.len() == 5);
        assert(tags@[0]@ == "br"@ && tags@[1]@ == "p"@);
    }
    ammonia_clean(html.as_str(), &tags)
}

} // verus!
