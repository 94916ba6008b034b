//! The articles of the blog.

use vstd::prelude::*;
use vstd::string::StringExecFns;
use crate::markdown::{markdown_html, render_markdown};

verus! {

/// Where the templates of the articles live.
pub const ARTICLES_DIRECTORY: &'static str = "articles/";

/// The file that holds the text of an article, below its directory.
pub const ARTICLE_BODY: &'static str = "/body.md";

/// The file that holds the preview of an article, below its directory.
pub const ARTICLE_PREVIEW: &'static str = "preview.json";

/// The name of the template that holds the text of an article.
pub fn article_template(slug: &str) -> (template: String)
    ensures
        template@ == ARTICLES_DIRECTORY@ + slug@ + ARTICLE_BODY@,
{
    let mut template = ARTICLES_DIRECTORY.to_owned();
    template.append(slug);
    template.append(ARTICLE_BODY);
    template
}

/// Renders the text of an article.
pub fn render_article(article: &str) -> (html: String)
    ensures
        html@ == markdown_html(article@),
{
    render_markdown(article)
}

} // verus!
