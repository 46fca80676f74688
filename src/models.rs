//! Rows of the content tables, one struct per table.

pub mod pagination;

use vstd::prelude::*;

verus! {

/// An article row.
#[derive(Clone, Debug, PartialEq)]
pub struct Article {
    pub id: i32,
    pub slug: String,
    pub status: String,
    pub title: String,
    pub body: String,
    pub lead: String,
    pub route_id: i32,
    pub comments_count: i32,
    pub extra: Option<String>,
    pub metadata: Option<String>,
    pub feature_media: Option<i32>,
    pub seo_metadata_id: Option<i32>,
}

/// The route an article is published under.
#[derive(Clone, Debug, PartialEq)]
pub struct Route {
    pub id: i32,
    pub name: String,
}

/// Reading statistics of an article.
#[derive(Clone, Debug, PartialEq)]
pub struct Statistics {
    pub id: i32,
    pub article_id: i32,
    pub page_views_number: i32,
}

/// A media item attached to an article.
#[derive(Clone, Debug, PartialEq)]
pub struct ArticleMedia {
    pub id: i32,
    pub article_id: i32,
    pub image_id: i32,
    pub key: String,
    pub body: String,
    pub description: String,
    pub located: String,
    pub by_line: String,
    pub mimetype: String,
    pub usage_terms: String,
}

/// A stored image: its asset and file extension.
#[derive(Clone, Debug, PartialEq)]
pub struct Image {
    pub id: i32,
    pub asset_id: String,
    pub file_extension: String,
}

/// One rendition of an article's media at a given size.
#[derive(Clone, Debug, PartialEq)]
pub struct ImageRendition {
    pub id: i32,
    pub media_id: i32,
    pub image_id: i32,
    pub width: i32,
    pub height: i32,
    pub name: String,
}

/// An author.
#[derive(Clone, Debug, PartialEq)]
pub struct Author {
    pub id: i32,
    pub name: String,
    pub role: String,
    pub job_title: String,
    pub biography: Option<String>,
    pub slug: Option<String>,
    pub twitter: Option<String>,
    pub facebook: Option<String>,
    pub instagram: Option<String>,
    pub author_media_id: Option<i32>,
}

/// Joins an article to one of its authors.
#[derive(Clone, Debug, PartialEq)]
pub struct ArticleAuthor {
    pub article_id: i32,
    pub author_id: i32,
}

/// The avatar media of an author.
#[derive(Clone, Debug, PartialEq)]
pub struct AuthorAvatar {
    pub id: i32,
    pub image_id: i32,
    pub key: String,
}

/// A keyword.
#[derive(Clone, Debug, PartialEq)]
pub struct Keyword {
    pub id: i32,
    pub name: String,
    pub slug: String,
}

/// Joins an article to one of its keywords.
#[derive(Clone, Debug, PartialEq)]
pub struct ArticleKeyword {
    pub article_id: i32,
    pub keyword_id: i32,
}

/// Search-engine and social-card metadata of an article.
#[derive(Clone, Debug, PartialEq)]
pub struct ArticleSeoMetadata {
    pub id: i32,
    pub meta_title: Option<String>,
    pub meta_description: Option<String>,
    pub og_title: Option<String>,
    pub og_description: Option<String>,
    pub twitter_title: Option<String>,
    pub twitter_description: Option<String>,
    pub seo_meta_media_id: Option<i32>,
    pub seo_og_media_id: Option<i32>,
    pub seo_twitter_media_id: Option<i32>,
}

/// Media used by search-engine or social-card metadata.
#[derive(Clone, Debug, PartialEq)]
pub struct ArticleSeoMedia {
    pub id: i32,
    pub image_id: i32,
    pub key: String,
}

/// Records that one article relates to another.
#[derive(Clone, Debug, PartialEq)]
pub struct RelatedArticle {
    pub id: i32,
    pub article_id: i32,
    pub relates_to_id: i32,
}

/// A source an article cites.
#[derive(Clone, Debug, PartialEq)]
pub struct Source {
    pub id: i32,
    pub name: String,
}

/// Joins an article to one of its sources.
#[derive(Clone, Debug, PartialEq)]
pub struct ArticleSource {
    pub article_id: i32,
    pub source_id: i32,
}

/// A slideshow in an article.
#[derive(Clone, Debug, PartialEq)]
pub struct Slideshow {
    pub id: i32,
    pub article_id: i32,
    pub code: String,
}

/// One item of a slideshow.
#[derive(Clone, Debug, PartialEq)]
pub struct SlideshowItem {
    pub id: i32,
    pub article_media_id: i32,
    pub slideshow_id: i32,
    pub position: Option<i32>,
}

} // verus!
