use vstd::prelude::*;
use vstd::string::*;

verus! {

/// The page served to a browser: the document head `base_html`, then the
/// server-rendered application inside `<div id="main">`, closed off.
pub open spec fn full_html_spec(base_html: Seq<char>, rendered: Seq<char>) -> Seq<char> {
    "\n"@ + base_html + "\n    <body>\n        <div id=\"main\">\n"@ + rendered
        + "\n        </div>\n    </body>\n</html>\n        "@
}

/// Assembles the served page from the document head and the rendered application.
pub fn full_html(base_html: &str, rendered: &str) -> (page: String)
    ensures
        page@ == full_html_spec(base_html@, rendered@),
{
    let page = String::from_str("\n")
        .concat(base_html)
        .concat("\n    <body>\n        <div id=\"main\">\n")
        .concat(rendered)
        .concat("\n        </div>\n    </body>\n</html>\n        ");
    proof {
        assert(page@ =~= full_html_spec(base_html@, rendered@));
    }
    page
}

} // verus!
