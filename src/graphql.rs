//! The nodes of the content graph: each row with the associations that eager
//! loading filled in, and the field resolvers that read them; and the paged
//! connection over articles.

pub mod generator;
pub mod schema;

use vstd::prelude::*;
use crate::association::{
    lends_boxed, same_outcome, try_unwrap, unboxed, AssociationError, HasMany, HasManyThrough,
    HasOne, OptionHasOne,
};
use crate::cursor::{
    base64_decoded, cursor_key, decode_key, key_cursor, key_cursor_text,
    lemma_distinct_keys_distinct_cursors, Cursor, CursorError,
};
use crate::decimal::{ascii_bytes, decimal_text, format_i64};
use crate::models::pagination::{
    has_next_page, has_previous_page, next_page_exists, previous_page_exists, request_for,
    PageError, PageRequest,
};
use self::generator::{asset_url, generate_url};
use crate::models::Article as ArticleModel;
use crate::models::Statistics as StatisticsModel;
use crate::models::Route as RouteModel;
use crate::models::ArticleMedia as ArticleMediaModel;
use crate::models::Image as ImageModel;
use crate::models::ImageRendition as ImageRenditionModel;
use crate::models::Author as AuthorModel;
use crate::models::AuthorAvatar as AuthorAvatarModel;
use crate::models::Keyword as KeywordModel;
use crate::models::ArticleSeoMetadata as ArticleSeoMetadataModel;
use crate::models::ArticleSeoMedia as ArticleSeoMediaModel;
use crate::models::RelatedArticle as RelatedArticleModel;
use crate::models::Source as SourceModel;
use crate::models::Slideshow as SlideshowModel;
use crate::models::SlideshowItem as SlideshowItemModel;

verus! {

/// An article with its associations.
#[derive(Debug, PartialEq)]
pub struct Article {
    pub article: ArticleModel,
    pub route: HasOne<Route>,
    pub media: HasMany<ArticleMedia>,
    pub authors: HasManyThrough<Author>,
    pub keywords: HasManyThrough<Keyword>,
    pub feature_media: OptionHasOne<Box<ArticleMedia>>,
    pub seo_metadata: OptionHasOne<ArticleSeoMetadata>,
    pub related_articles: HasMany<RelatedArticle>,
    pub sources: HasManyThrough<Source>,
    pub slideshows: HasMany<Slideshow>,
}

impl Article {
    /// The article's id as decimal text.
    pub fn field_id(&self) -> (r: String)
        ensures
            r@ == decimal_text(self.article.id as int),
    {
        format_i64(self.article.id as i64)
    }

    pub fn field_title(&self) -> (r: &String)
        ensures
            *r == self.article.title,
    {
        &self.article.title
    }

    pub fn field_status(&self) -> (r: &String)
        ensures
            *r == self.article.status,
    {
        &self.article.status
    }

    pub fn field_slug(&self) -> (r: &String)
        ensures
            *r == self.article.slug,
    {
        &self.article.slug
    }

    pub fn field_lead(&self) -> (r: &String)
        ensures
            *r == self.article.lead,
    {
        &self.article.lead
    }

    pub fn field_body(&self) -> (r: &String)
        ensures
            *r == self.article.body,
    {
        &self.article.body
    }

    pub fn field_comments_count(&self) -> (r: &i32)
        ensures
            *r == self.article.comments_count,
    {
        &self.article.comments_count
    }

    pub fn field_extra(&self) -> (r: &Option<String>)
        ensures
            *r == self.article.extra,
    {
        &self.article.extra
    }

    pub fn field_metadata(&self) -> (r: &Option<String>)
        ensures
            *r == self.article.metadata,
    {
        &self.article.metadata
    }

    pub fn field_route(&self) -> (r: Result<&Route, AssociationError>)
        ensures
            same_outcome(r, self.route),
    {
        try_unwrap(&self.route)
    }

    pub fn field_media(&self) -> (r: &Vec<ArticleMedia>)
        ensures
            *r == self.media,
    {
        &self.media
    }

    pub fn field_authors(&self) -> (r: &Vec<Author>)
        ensures
            *r == self.authors,
    {
        &self.authors
    }

    pub fn field_keywords(&self) -> (r: &Vec<Keyword>)
        ensures
            *r == self.keywords,
    {
        &self.keywords
    }

    pub fn field_feature_media(&self) -> (r: Option<&ArticleMedia>)
        ensures
            lends_boxed(r, self.feature_media),
    {
        unboxed(&self.feature_media)
    }

    pub fn field_seo_metadata(&self) -> (r: &Option<ArticleSeoMetadata>)
        ensures
            *r == self.seo_metadata,
    {
        &self.seo_metadata
    }

    pub fn field_related_articles(&self) -> (r: &Vec<RelatedArticle>)
        ensures
            *r == self.related_articles,
    {
        &self.related_articles
    }

    pub fn field_sources(&self) -> (r: &Vec<Source>)
        ensures
            *r == self.sources,
    {
        &self.sources
    }

    pub fn field_slideshows(&self) -> (r: &Vec<Slideshow>)
        ensures
            *r == self.slideshows,
    {
        &self.slideshows
    }
}

/// Reading statistics of an article.
#[derive(Debug, PartialEq)]
pub struct Statistics {
    pub statistics: StatisticsModel,
}

impl Statistics {
    pub fn field_id(&self) -> (r: &i32)
        ensures
            *r == self.statistics.id,
    {
        &self.statistics.id
    }

    pub fn field_page_views_number(&self) -> (r: &i32)
        ensures
            *r == self.statistics.page_views_number,
    {
        &self.statistics.page_views_number
    }
}

/// The route an article is published under.
#[derive(Debug, PartialEq)]
pub struct Route {
    pub route: RouteModel,
}

impl Route {
    pub fn field_id(&self) -> (r: &i32)
        ensures
            *r == self.route.id,
    {
        &self.route.id
    }

    pub fn field_name(&self) -> (r: &String)
        ensures
            *r == self.route.name,
    {
        &self.route.name
    }
}

/// A media item of an article, with its image and renditions.
#[derive(Debug, PartialEq)]
pub struct ArticleMedia {
    pub article_media: ArticleMediaModel,
    pub article: HasOne<Article>,
    pub image: HasOne<Image>,
    pub renditions: HasMany<ImageRendition>,
}

impl ArticleMedia {
    pub fn field_id(&self) -> (r: &i32)
        ensures
            *r == self.article_media.id,
    {
        &self.article_media.id
    }

    pub fn field_key(&self) -> (r: &String)
        ensures
            *r == self.article_media.key,
    {
        &self.article_media.key
    }

    pub fn field_body(&self) -> (r: &String)
        ensures
            *r == self.article_media.body,
    {
        &self.article_media.body
    }

    pub fn field_description(&self) -> (r: &String)
        ensures
            *r == self.article_media.description,
    {
        &self.article_media.description
    }

    pub fn field_located(&self) -> (r: &String)
        ensures
            *r == self.article_media.located,
    {
        &self.article_media.located
    }

    pub fn field_by_line(&self) -> (r: &String)
        ensures
            *r == self.article_media.by_line,
    {
        &self.article_media.by_line
    }

    pub fn field_mimetype(&self) -> (r: &String)
        ensures
            *r == self.article_media.mimetype,
    {
        &self.article_media.mimetype
    }

    pub fn field_usage_terms(&self) -> (r: &String)
        ensures
            *r == self.article_media.usage_terms,
    {
        &self.article_media.usage_terms
    }

    pub fn field_article(&self) -> (r: Result<&Article, AssociationError>)
        ensures
            same_outcome(r, self.article),
    {
        try_unwrap(&self.article)
    }

    pub fn field_image(&self) -> (r: Result<&Image, AssociationError>)
        ensures
            same_outcome(r, self.image),
    {
        try_unwrap(&self.image)
    }

    pub fn field_renditions(&self) -> (r: &Vec<ImageRendition>)
        ensures
            *r == self.renditions,
    {
        &self.renditions
    }
}

/// A stored image.
#[derive(Debug, PartialEq)]
pub struct Image {
    pub image: ImageModel,
}

impl Image {
    pub fn field_id(&self) -> (r: &i32)
        ensures
            *r == self.image.id,
    {
        &self.image.id
    }

    pub fn field_asset_id(&self) -> (r: &String)
        ensures
            *r == self.image.asset_id,
    {
        &self.image.asset_id
    }

    pub fn field_file_extension(&self) -> (r: &String)
        ensures
            *r == self.image.file_extension,
    {
        &self.image.file_extension
    }

    /// The image's public URL under the CDN base `cdn_url`.
    pub fn field_url(&self, cdn_url: String) -> (r: String)
        ensures
            r@ == asset_url(cdn_url@, self.image.asset_id@, self.image.file_extension@),
    {
        generate_url(cdn_url, &self.image.asset_id, &self.image.file_extension)
    }
}

/// A rendition of a media item, with its image.
#[derive(Debug, PartialEq)]
pub struct ImageRendition {
    pub media: HasOne<ArticleMedia>,
    pub image_rendition: ImageRenditionModel,
    pub image: HasOne<Image>,
}

impl ImageRendition {
    pub fn field_id(&self) -> (r: &i32)
        ensures
            *r == self.image_rendition.id,
    {
        &self.image_rendition.id
    }

    pub fn field_width(&self) -> (r: &i32)
        ensures
            *r == self.image_rendition.width,
    {
        &self.image_rendition.width
    }

    pub fn field_height(&self) -> (r: &i32)
        ensures
            *r == self.image_rendition.height,
    {
        &self.image_rendition.height
    }

    pub fn field_name(&self) -> (r: &String)
        ensures
            *r == self.image_rendition.name,
    {
        &self.image_rendition.name
    }

    pub fn field_image(&self) -> (r: Result<&Image, AssociationError>)
        ensures
            same_outcome(r, self.image),
    {
        try_unwrap(&self.image)
    }

    pub fn field_media(&self) -> (r: Result<&ArticleMedia, AssociationError>)
        ensures
            same_outcome(r, self.media),
    {
        try_unwrap(&self.media)
    }
}

/// An author, with an avatar where there is one.
#[derive(Debug, PartialEq)]
pub struct Author {
    pub author: AuthorModel,
    pub avatar: OptionHasOne<Box<AuthorAvatar>>,
}

impl Author {
    pub fn field_id(&self) -> (r: &i32)
        ensures
            *r == self.author.id,
    {
        &self.author.id
    }

    pub fn field_name(&self) -> (r: &String)
        ensures
            *r == self.author.name,
    {
        &self.author.name
    }

    pub fn field_role(&self) -> (r: &String)
        ensures
            *r == self.author.role,
    {
        &self.author.role
    }

    pub fn field_job_title(&self) -> (r: &String)
        ensures
            *r == self.author.job_title,
    {
        &self.author.job_title
    }

    pub fn field_biography(&self) -> (r: &Option<String>)
        ensures
            *r == self.author.biography,
    {
        &self.author.biography
    }

    pub fn field_slug(&self) -> (r: &Option<String>)
        ensures
            *r == self.author.slug,
    {
        &self.author.slug
    }

    pub fn field_twitter(&self) -> (r: &Option<String>)
        ensures
            *r == self.author.twitter,
    {
        &self.author.twitter
    }

    pub fn field_facebook(&self) -> (r: &Option<String>)
        ensures
            *r == self.author.facebook,
    {
        &self.author.facebook
    }

    pub fn field_instagram(&self) -> (r: &Option<String>)
        ensures
            *r == self.author.instagram,
    {
        &self.author.instagram
    }

    pub fn field_avatar(&self) -> (r: Option<&AuthorAvatar>)
        ensures
            lends_boxed(r, self.avatar),
    {
        unboxed(&self.avatar)
    }
}

/// The avatar of an author, with its image.
#[derive(Debug, PartialEq)]
pub struct AuthorAvatar {
    pub author_avatar: AuthorAvatarModel,
    pub image: HasOne<Image>,
}

impl AuthorAvatar {
    pub fn field_id(&self) -> (r: &i32)
        ensures
            *r == self.author_avatar.id,
    {
        &self.author_avatar.id
    }

    pub fn field_key(&self) -> (r: &String)
        ensures
            *r == self.author_avatar.key,
    {
        &self.author_avatar.key
    }

    pub fn field_image(&self) -> (r: Result<&Image, AssociationError>)
        ensures
            same_outcome(r, self.image),
    {
        try_unwrap(&self.image)
    }
}

/// A keyword.
#[derive(Debug, PartialEq)]
pub struct Keyword {
    pub keyword: KeywordModel,
}

impl Keyword {
    pub fn field_id(&self) -> (r: &i32)
        ensures
            *r == self.keyword.id,
    {
        &self.keyword.id
    }

    pub fn field_name(&self) -> (r: &String)
        ensures
            *r == self.keyword.name,
    {
        &self.keyword.name
    }

    pub fn field_slug(&self) -> (r: &String)
        ensures
            *r == self.keyword.slug,
    {
        &self.keyword.slug
    }
}

/// Search-engine and social-card metadata, with the media each card uses.
#[derive(Debug, PartialEq)]
pub struct ArticleSeoMetadata {
    pub article_seo_metadata: ArticleSeoMetadataModel,
    pub seo_meta_media: OptionHasOne<Box<ArticleSeoMedia>>,
    pub seo_og_media: OptionHasOne<Box<ArticleSeoMedia>>,
    pub seo_twitter_media: OptionHasOne<Box<ArticleSeoMedia>>,
}

impl ArticleSeoMetadata {
    pub fn field_id(&self) -> (r: &i32)
        ensures
            *r == self.article_seo_metadata.id,
    {
        &self.article_seo_metadata.id
    }

    pub fn field_meta_title(&self) -> (r: &Option<String>)
        ensures
            *r == self.article_seo_metadata.meta_title,
    {
        &self.article_seo_metadata.meta_title
    }

    pub fn field_meta_description(&self) -> (r: &Option<String>)
        ensures
            *r == self.article_seo_metadata.meta_description,
    {
        &self.article_seo_metadata.meta_description
    }

    pub fn field_og_title(&self) -> (r: &Option<String>)
        ensures
            *r == self.article_seo_metadata.og_title,
    {
        &self.article_seo_metadata.og_title
    }

    pub fn field_og_description(&self) -> (r: &Option<String>)
        ensures
            *r == self.article_seo_metadata.og_description,
    {
        &self.article_seo_metadata.og_description
    }

    pub fn field_twitter_title(&self) -> (r: &Option<String>)
        ensures
            *r == self.article_seo_metadata.twitter_title,
    {
        &self.article_seo_metadata.twitter_title
    }

    pub fn field_twitter_description(&self) -> (r: &Option<String>)
        ensures
            *r == self.article_seo_metadata.twitter_description,
    {
        &self.article_seo_metadata.twitter_description
    }

    pub fn field_seo_meta_media(&self) -> (r: Option<&ArticleSeoMedia>)
        ensures
            lends_boxed(r, self.seo_meta_media),
    {
        unboxed(&self.seo_meta_media)
    }

    pub fn field_seo_og_media(&self) -> (r: Option<&ArticleSeoMedia>)
        ensures
            lends_boxed(r, self.seo_og_media),
    {
        unboxed(&self.seo_og_media)
    }

    pub fn field_seo_twitter_media(&self) -> (r: Option<&ArticleSeoMedia>)
        ensures
            lends_boxed(r, self.seo_twitter_media),
    {
        unboxed(&self.seo_twitter_media)
    }
}

/// Media of search-engine or social-card metadata, with its image.
#[derive(Debug, PartialEq)]
pub struct ArticleSeoMedia {
    pub article_seo_media: ArticleSeoMediaModel,
    pub image: HasOne<Image>,
}

impl ArticleSeoMedia {
    pub fn field_id(&self) -> (r: &i32)
        ensures
            *r == self.article_seo_media.id,
    {
        &self.article_seo_media.id
    }

    pub fn field_key(&self) -> (r: &String)
        ensures
            *r == self.article_seo_media.key,
    {
        &self.article_seo_media.key
    }

    pub fn field_image(&self) -> (r: Result<&Image, AssociationError>)
        ensures
            same_outcome(r, self.image),
    {
        try_unwrap(&self.image)
    }
}

/// An article that another one relates to.
#[derive(Debug, PartialEq)]
pub struct RelatedArticle {
    pub related_article: RelatedArticleModel,
    pub article: HasOne<Article>,
}

impl RelatedArticle {
    pub fn field_article(&self) -> (r: Result<&Article, AssociationError>)
        ensures
            same_outcome(r, self.article),
    {
        try_unwrap(&self.article)
    }
}

/// A source an article cites.
#[derive(Debug, PartialEq)]
pub struct Source {
    pub source: SourceModel,
}

impl Source {
    pub fn field_id(&self) -> (r: &i32)
        ensures
            *r == self.source.id,
    {
        &self.source.id
    }

    pub fn field_name(&self) -> (r: &String)
        ensures
            *r == self.source.name,
    {
        &self.source.name
    }
}

/// A slideshow of an article, with its items.
#[derive(Debug, PartialEq)]
pub struct Slideshow {
    pub slideshow: SlideshowModel,
    pub article: HasOne<Article>,
    pub items: HasMany<SlideshowItem>,
}

impl Slideshow {
    pub fn field_article(&self) -> (r: Result<&Article, AssociationError>)
        ensures
            same_outcome(r, self.article),
    {
        try_unwrap(&self.article)
    }

    pub fn field_code(&self) -> (r: &String)
        ensures
            *r == self.slideshow.code,
    {
        &self.slideshow.code
    }

    pub fn field_items(&self) -> (r: &Vec<SlideshowItem>)
        ensures
            *r == self.items,
    {
        &self.items
    }
}

/// An item of a slideshow, with its media.
#[derive(Debug, PartialEq)]
pub struct SlideshowItem {
    pub slideshow_item: SlideshowItemModel,
    pub slideshow: HasOne<Slideshow>,
    pub media: HasOne<ArticleMedia>,
}

impl SlideshowItem {
    pub fn field_slideshow(&self) -> (r: Result<&Slideshow, AssociationError>)
        ensures
            same_outcome(r, self.slideshow),
    {
        try_unwrap(&self.slideshow)
    }

    pub fn field_media(&self) -> (r: Result<&ArticleMedia, AssociationError>)
        ensures
            same_outcome(r, self.media),
    {
        try_unwrap(&self.media)
    }

    pub fn field_position(&self) -> (r: &Option<i32>)
        ensures
            *r == self.slideshow_item.position,
    {
        &self.slideshow_item.position
    }
}

/// The query root.
#[derive(Clone, Copy, Debug, PartialEq, Eq)]
pub struct Query;

impl Query {
    /// The version of the API.
    pub fn field_api_version(&self) -> (r: String)
        ensures
            r@ == seq!['1', '.', '0'],
    {
        proof {
            reveal_strlit("1.0");
        }
        String::from_str("1.0")
    }
}

/// The mutation root; its one field changes nothing.
#[derive(Clone, Copy, Debug, PartialEq, Eq)]
pub struct Mutation;

impl Mutation {
    pub fn field_noop(&self) -> (r: bool)
        ensures
            r,
    {
        true
    }
}

/// Why a page of articles cannot be served.
#[derive(Clone, Copy, Debug, PartialEq, Eq)]
pub enum PaginationError {
    /// The cursor does not name a row.
    Cursor(CursorError),
    /// The page size gives no request.
    Page(PageError),
    /// The row keys are not increasing, or the nodes are neither absent nor one per key.
    KeysOutOfOrder,
    /// A row count is negative, or the total does not fit in an `i32`.
    CountOutOfRange,
}

/// A page request's outcome, with its error as a pagination error.
pub open spec fn as_pagination(r: Result<PageRequest, PageError>) -> Result<PageRequest, PaginationError> {
    match r {
        Ok(p) => Ok(p),
        Err(e) => Err(PaginationError::Page(e)),
    }
}

/// The request for the `first` articles after the row that `after` names, or from the
/// first article where it is `None`.
pub open spec fn requested_page(after: Option<Cursor>, first: i32) -> Result<PageRequest, PaginationError> {
    match after {
        None => as_pagination(request_for(None, first)),
        Some(c) => match cursor_key(c@) {
            Err(e) => Err(PaginationError::Cursor(e)),
            Ok(k) => as_pagination(request_for(Some(k), first)),
        },
    }
}

/// The rows a page of `first` articles asks for: those after the row that `after`
/// names, or from the first row where it is `None`.
pub fn plan_articles_page(after: Option<Cursor>, first: i32) -> (r: Result<PageRequest, PaginationError>)
    ensures
        r == requested_page(after, first),
{
    let after_key = match after {
        None => None,
        Some(c) => match decode_key(&c) {
            Err(e) => {
                return Err(PaginationError::Cursor(e));
            },
            Ok(k) => Some(k),
        },
    };
    match PageRequest::new(after_key, first) {
        Ok(p) => Ok(p),
        Err(e) => Err(PaginationError::Page(e)),
    }
}

/// Paging facts of a connection.
#[derive(Debug)]
pub struct PageInfo {
    pub start_cursor: Option<Cursor>,
    pub end_cursor: Option<Cursor>,
    pub has_next_page: bool,
    pub has_previous_page: bool,
}

impl PageInfo {
    pub fn field_start_cursor(&self) -> (r: &Option<Cursor>)
        ensures
            *r == self.start_cursor,
    {
        &self.start_cursor
    }

    pub fn field_end_cursor(&self) -> (r: &Option<Cursor>)
        ensures
            *r == self.end_cursor,
    {
        &self.end_cursor
    }

    pub fn field_has_next_page(&self) -> (r: bool)
        ensures
            r == self.has_next_page,
    {
        self.has_next_page
    }

    pub fn field_has_previous_page(&self) -> (r: bool)
        ensures
            r == self.has_previous_page,
    {
        self.has_previous_page
    }
}

/// A node of a connection with its cursor.
#[derive(Debug)]
pub struct Edge<T> {
    pub node: T,
    pub cursor: Cursor,
}

pub type ArticleEdge = Edge<Article>;

impl<T> Edge<T> {
    pub fn field_node(&self) -> (r: &T)
        ensures
            *r == self.node,
    {
        &self.node
    }

    pub fn field_cursor(&self) -> (r: &Cursor)
        ensures
            *r == self.cursor,
    {
        &self.cursor
    }
}

/// A page of nodes with its paging facts and the total number of nodes.
#[derive(Debug)]
pub struct Connection<T> {
    pub edges: Vec<Edge<T>>,
    pub page_info: PageInfo,
    pub total_count: i32,
}

/// A page of articles.
pub type ArticleConnection = Connection<Article>;

impl<T> Connection<T> {
    pub fn field_edges(&self) -> (r: &Vec<Edge<T>>)
        ensures
            *r == self.edges,
    {
        &self.edges
    }

    pub fn field_page_info(&self) -> (r: &PageInfo)
        ensures
            *r == self.page_info,
    {
        &self.page_info
    }

    pub fn field_total_count(&self) -> (r: i32)
        ensures
            r == self.total_count,
    {
        self.total_count
    }
}

/// Whether each key is below every later one.
pub open spec fn strictly_increasing(keys: Seq<i32>) -> bool {
    forall|a: int, b: int| 0 <= a < b < keys.len() ==> keys[a] < keys[b]
}

/// Whether the row counts can describe a page: none negative, the total within `i32`.
pub open spec fn counts_in_range(rows_before: i64, total: i64) -> bool {
    0 <= rows_before && 0 <= total <= i32::MAX
}

/// Whether a start or end cursor has the text of the edge cursor `edge` where there
/// are edges, and is absent where there are none.
pub open spec fn boundary_cursor(c: Option<Cursor>, edge_count: nat, edge: Seq<char>) -> bool {
    match c {
        Some(x) => edge_count > 0 && x@ == edge,
        None => edge_count == 0,
    }
}

/// Whether the nodes fit the page's row keys: none where the nodes were not asked
/// for, else one per key, and the keys increasing.
pub open spec fn keys_fit<T>(nodes: Seq<T>, keys: Seq<i32>) -> bool {
    strictly_increasing(keys) && (nodes.len() == 0 || nodes.len() == keys.len())
}

/// Whether `c` is the connection over `nodes`, out of the page's rows with the keys
/// `keys` (one per node where there are nodes), with
/// `rows_before` rows before them out of `total`.
pub open spec fn connects<T>(
    c: Connection<T>,
    nodes: Seq<T>,
    keys: Seq<i32>,
    rows_before: i64,
    total: i64,
) -> bool {
    &&& c.edges@.len() == nodes.len()
    &&& forall|i: int|
        0 <= i < nodes.len() ==> {
            &&& (#[trigger] c.edges@[i]).node == nodes[i]
            &&& c.edges@[i].cursor@ == key_cursor_text(keys[i])
            &&& cursor_key(c.edges@[i].cursor@) == Ok::<i32, CursorError>(keys[i])
        }
    &&& forall|i: int, j: int|
        0 <= i < j < nodes.len() ==> (#[trigger] c.edges@[i]).cursor@ != (#[trigger] c.edges@[j]).cursor@
    &&& boundary_cursor(c.page_info.start_cursor, nodes.len(), c.edges@[0].cursor@)
    &&& boundary_cursor(c.page_info.end_cursor, nodes.len(), c.edges@[nodes.len() - 1].cursor@)
    &&& c.page_info.has_next_page == next_page_exists(rows_before as int, keys.len() as int, total as int)
    &&& c.page_info.has_previous_page == previous_page_exists(rows_before as int)
    &&& c.total_count == total
}

/// Whether `keys` is strictly increasing.
fn keys_increasing(keys: &Vec<i32>) -> (r: bool)
    ensures
        r == strictly_increasing(keys@),
{
    let n = keys.len();
    if n == 0 {
        return true;
    }
    let mut i: usize = 1;
    while i < n
        invariant
            1 <= i <= n,
            n == keys@.len(),
            forall|a: int, b: int| 0 <= a < b < i ==> keys@[a] < keys@[b],
        decreases n - i,
    {
        if keys[i - 1] >= keys[i] {
            assert(!strictly_increasing(keys@)) by {
                assert(keys@[i - 1] >= keys@[i as int]);
            }
            return false;
        }
        assert forall|a: int, b: int| 0 <= a < b < i + 1 implies keys@[a] < keys@[b] by {
            if b == i && a < i - 1 {
                assert(keys@[a] < keys@[i - 1]);
            }
        }
        i = i + 1;
    }
    true
}

/// The connection over the nodes `nodes` of one page. `keys` holds the key of every
/// row the page's query returned, in order; `nodes` holds one node per key, or none
/// where the nodes were not asked for. `rows_before` rows precede the page and
/// `total_count` rows exist in all; whether a next page exists goes by the rows
/// returned, whether or not their nodes were built.
/// Each edge carries the cursor of its own row's key, so cursors differ from edge to
/// edge, and a page requested after an edge's cursor starts right after its row.
pub fn articles_connection<T>(
    nodes: Vec<T>,
    keys: &Vec<i32>,
    rows_before: i64,
    total_count: i64,
) -> (r: Result<Connection<T>, PaginationError>)
    ensures
        !(keys_fit(nodes@, keys@)) ==> r == Err::<
            Connection<T>,
            PaginationError,
        >(PaginationError::KeysOutOfOrder),
        keys_fit(nodes@, keys@) && !counts_in_range(
            rows_before,
            total_count,
        ) ==> r == Err::<Connection<T>, PaginationError>(PaginationError::CountOutOfRange),
        keys_fit(nodes@, keys@) && counts_in_range(
            rows_before,
            total_count,
        ) ==> match r {
            Ok(c) => connects(c, nodes@, keys@, rows_before, total_count),
            Err(_) => false,
        },
{
    if (nodes.len() != 0 && nodes.len() != keys.len()) || !keys_increasing(keys) {
        return Err(PaginationError::KeysOutOfOrder);
    }
    if rows_before < 0 || total_count < 0 || total_count > i32::MAX as i64 {
        return Err(PaginationError::CountOutOfRange);
    }
    let ghost all = nodes@;
    let mut edges: Vec<Edge<T>> = Vec::new();
    let mut idx: usize = 0;
    let key_count = keys.len();
    for node in it: nodes.into_iter()
        invariant
            key_count == keys@.len(),
            it.seq() == all,
            idx == it.index(),
            edges@.len() == idx,
            all.len() <= keys@.len(),
            forall|i: int|
                0 <= i < idx ==> {
                    &&& (#[trigger] edges@[i]).node == all[i]
                    &&& edges@[i].cursor@ == key_cursor_text(keys@[i])
                    &&& cursor_key(edges@[i].cursor@) == Ok::<i32, CursorError>(keys@[i])
                    &&& base64_decoded(edges@[i].cursor@) == Some(
                        ascii_bytes(decimal_text(keys@[i] as int)),
                    )
                },
    {
        assert(idx < keys@.len());
        let cursor = key_cursor(keys[idx]);
        edges.push(Edge { node, cursor });
        idx = idx + 1;
    }
    proof {
        assert forall|i: int, j: int|
            0 <= i < j < all.len() implies (#[trigger] edges@[i]).cursor@ != (
            #[trigger] edges@[j]).cursor@ by {
            lemma_distinct_keys_distinct_cursors(
                edges@[i].cursor@,
                edges@[j].cursor@,
                keys@[i],
                keys@[j],
            );
        }
    }
    let n = edges.len();
    let start_cursor = if n > 0 {
        Some(edges[0].cursor.copy_text())
    } else {
        None
    };
    let end_cursor = if n > 0 {
        Some(edges[n - 1].cursor.copy_text())
    } else {
        None
    };
    let page_info = PageInfo {
        start_cursor,
        end_cursor,
        has_next_page: has_next_page(rows_before, key_count, total_count),
        has_previous_page: has_previous_page(rows_before),
    };
    Ok(Connection { edges, page_info, total_count: total_count as i32 })
}

/// Resuming after an edge: a page requested after the cursor of any edge of a
/// connection, the end cursor among them, asks for the rows whose keys are above
/// that edge's row.
pub proof fn lemma_resume_after_edge<T>(
    c: Connection<T>,
    nodes: Seq<T>,
    keys: Seq<i32>,
    rows_before: i64,
    total: i64,
    i: int,
    first: i32,
)
    requires
        connects(c, nodes, keys, rows_before, total),
        0 <= i < nodes.len(),
        first >= 0,
    ensures
        requested_page(Some(c.edges@[i].cursor), first) == Ok::<PageRequest, PaginationError>(
            PageRequest { after_key: Some(keys[i]), limit: first as i64 },
        ),
{
    assert(c.edges@[i].node == nodes[i]);
}

} // verus!
