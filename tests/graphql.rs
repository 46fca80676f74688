use graphql_api::association::{AssociationError, AssociationType};
use graphql_api::cursor::{Cursor, CursorError};
use graphql_api::graphql::generator::generate_url;
use graphql_api::graphql::schema::MutationRoot;
use graphql_api::graphql::{
    articles_connection, plan_articles_page, Article, ArticleMedia, ArticleSeoMedia,
    ArticleSeoMetadata, Author, AuthorAvatar, Edge, Image, Mutation, PaginationError, Query,
};
use graphql_api::models;
use graphql_api::models::pagination::PageError;

fn article_row(id: i32) -> models::Article {
    models::Article {
        id,
        slug: format!("article-{}", id),
        status: "published".to_string(),
        title: format!("Article {}", id),
        body: "body".to_string(),
        lead: "lead".to_string(),
        route_id: 1,
        comments_count: 3,
        extra: None,
        metadata: Some("{}".to_string()),
        feature_media: None,
        seo_metadata_id: None,
    }
}

fn unloaded_article(id: i32) -> Article {
    Article {
        article: article_row(id),
        route: Err(AssociationError::NotLoaded(AssociationType::HasOne)),
        media: Vec::new(),
        authors: Vec::new(),
        keywords: Vec::new(),
        feature_media: None,
        seo_metadata: None,
        related_articles: Vec::new(),
        sources: Vec::new(),
        slideshows: Vec::new(),
    }
}

fn media_row(id: i32, article_id: i32) -> models::ArticleMedia {
    models::ArticleMedia {
        id,
        article_id,
        image_id: 9,
        key: "embedded".to_string(),
        body: "caption".to_string(),
        description: "a photo".to_string(),
        located: "Berlin".to_string(),
        by_line: "Jane".to_string(),
        mimetype: "image/jpeg".to_string(),
        usage_terms: "none".to_string(),
    }
}

fn image(id: i32) -> Image {
    Image {
        image: models::Image {
            id,
            asset_id: "a1b2".to_string(),
            file_extension: "png".to_string(),
        },
    }
}

#[test]
fn plan_from_the_first_row_when_no_cursor_is_given() {
    let r = plan_articles_page(None, 10).unwrap();
    assert_eq!(r.after_key, None);
    assert_eq!(r.limit, 10);
}

#[test]
fn plan_after_the_row_a_cursor_names() {
    let r = plan_articles_page(Some(Cursor("Mw==".to_string())), 5).unwrap();
    assert_eq!(r.after_key, Some(3));
    assert_eq!(r.limit, 5);
}

#[test]
fn plan_errors() {
    assert_eq!(
        plan_articles_page(Some(Cursor("???".to_string())), 5).unwrap_err(),
        PaginationError::Cursor(CursorError::NotBase64)
    );
    assert_eq!(
        plan_articles_page(Some(Cursor("bm90IGEgbnVtYmVy".to_string())), 5).unwrap_err(),
        PaginationError::Cursor(CursorError::NotANumber)
    );
    assert_eq!(
        plan_articles_page(Some(Cursor("MjE0NzQ4MzY0OA==".to_string())), 5).unwrap_err(),
        PaginationError::Cursor(CursorError::KeyOutOfRange)
    );
    assert_eq!(
        plan_articles_page(None, -1).unwrap_err(),
        PaginationError::Page(PageError::NegativePageSize)
    );
    assert_eq!(
        plan_articles_page(Some(Cursor("Mw==".to_string())), -1).unwrap_err(),
        PaginationError::Page(PageError::NegativePageSize)
    );
}

#[test]
fn each_edge_carries_its_own_rows_cursor() {
    let nodes = vec![unloaded_article(3), unloaded_article(4)];
    let c = articles_connection(nodes, &vec![3, 4], 2, 5).unwrap();
    assert_eq!(c.field_total_count(), 5);
    assert_eq!(c.field_edges().len(), 2);
    assert_eq!(c.edges[0].node.article.id, 3);
    assert_eq!(c.edges[1].node.article.id, 4);
    assert_eq!(c.edges[0].field_cursor().0, "Mw==");
    assert_eq!(c.edges[1].field_cursor().0, "NA==");
    assert_ne!(c.edges[0].cursor, c.edges[1].cursor);
    let info = c.field_page_info();
    assert_eq!(info.field_start_cursor().as_ref().unwrap().0, "Mw==");
    assert_eq!(info.field_end_cursor().as_ref().unwrap().0, "NA==");
    assert!(info.field_has_next_page());
    assert!(info.field_has_previous_page());
}

#[test]
fn next_request_resumes_after_the_end_cursor() {
    let c = articles_connection(vec![unloaded_article(7), unloaded_article(9)], &vec![7, 9], 0, 10).unwrap();
    let end = c.page_info.end_cursor.clone();
    let next = plan_articles_page(end, 2).unwrap();
    assert_eq!(next.after_key, Some(9));
    assert_eq!(next.limit, 2);
}

#[test]
fn last_page_has_no_next_page() {
    let c = articles_connection(vec![unloaded_article(5)], &vec![5], 4, 5).unwrap();
    assert!(!c.page_info.has_next_page);
    assert!(c.page_info.has_previous_page);
}

#[test]
fn first_page_has_no_previous_page() {
    let c = articles_connection(vec![unloaded_article(1), unloaded_article(2)], &vec![1, 2], 0, 2).unwrap();
    assert!(!c.page_info.has_previous_page);
    assert!(!c.page_info.has_next_page);
}

#[test]
fn empty_page_has_no_boundary_cursors() {
    let c = articles_connection(Vec::<Article>::new(), &Vec::new(), 0, 0).unwrap();
    assert!(c.edges.is_empty());
    assert!(c.page_info.start_cursor.is_none());
    assert!(c.page_info.end_cursor.is_none());
    assert_eq!(c.total_count, 0);
}

#[test]
fn next_page_counts_rows_returned_without_nodes() {
    let c = articles_connection(Vec::<Article>::new(), &vec![1, 2, 3, 4, 5], 0, 5).unwrap();
    assert!(c.edges.is_empty());
    assert!(c.page_info.start_cursor.is_none());
    assert!(c.page_info.end_cursor.is_none());
    assert!(!c.page_info.has_next_page);
    assert!(!c.page_info.has_previous_page);
    assert_eq!(c.total_count, 5);
    let c = articles_connection(Vec::<Article>::new(), &vec![1, 2], 0, 5).unwrap();
    assert!(c.page_info.has_next_page);
}

#[test]
fn connection_rejects_keys_that_do_not_fit_the_nodes() {
    assert_eq!(
        articles_connection(vec![unloaded_article(1)], &vec![1, 2], 0, 2).unwrap_err(),
        PaginationError::KeysOutOfOrder
    );
    assert_eq!(
        articles_connection(vec![unloaded_article(1)], &Vec::new(), 0, 2).unwrap_err(),
        PaginationError::KeysOutOfOrder
    );
    assert_eq!(
        articles_connection(Vec::<Article>::new(), &vec![3, 1], 0, 2).unwrap_err(),
        PaginationError::KeysOutOfOrder
    );
    assert_eq!(
        articles_connection(vec![unloaded_article(2), unloaded_article(1)], &vec![2, 1], 0, 2).unwrap_err(),
        PaginationError::KeysOutOfOrder
    );
    assert_eq!(
        articles_connection(vec![unloaded_article(2), unloaded_article(2)], &vec![2, 2], 0, 2).unwrap_err(),
        PaginationError::KeysOutOfOrder
    );
}

#[test]
fn connection_rejects_counts_out_of_range() {
    assert_eq!(
        articles_connection(Vec::<Article>::new(), &Vec::new(), 0, -1).unwrap_err(),
        PaginationError::CountOutOfRange
    );
    assert_eq!(
        articles_connection(Vec::<Article>::new(), &Vec::new(), -1, 3).unwrap_err(),
        PaginationError::CountOutOfRange
    );
    assert_eq!(
        articles_connection(Vec::<Article>::new(), &Vec::new(), 0, i32::MAX as i64 + 1).unwrap_err(),
        PaginationError::CountOutOfRange
    );
    assert_eq!(
        articles_connection(Vec::<Article>::new(), &Vec::new(), 0, i32::MAX as i64).unwrap().total_count,
        i32::MAX
    );
}

#[test]
fn urls_join_base_asset_and_extension() {
    let a = "a1b2".to_string();
    let e = "jpg".to_string();
    assert_eq!(generate_url("https://cdn.example.com/".to_string(), &a, &e), "https://cdn.example.com/a1b2.jpg");
    assert_eq!(generate_url("https://cdn.example.com".to_string(), &a, &e), "https://cdn.example.com/a1b2.jpg");
    assert_eq!(generate_url("https://cdn.example.com//".to_string(), &a, &e), "https://cdn.example.com//a1b2.jpg");
    assert_eq!(generate_url(String::new(), &a, &e), "/a1b2.jpg");
    assert_eq!(generate_url("/".to_string(), &a, &e), "/a1b2.jpg");
}

#[test]
fn image_url_uses_its_asset() {
    assert_eq!(image(1).field_url("http://x/".to_string()), "http://x/a1b2.png");
}

#[test]
fn article_fields() {
    let a = unloaded_article(42);
    assert_eq!(a.field_id(), "42");
    assert_eq!(a.field_title(), "Article 42");
    assert_eq!(a.field_slug(), "article-42");
    assert_eq!(a.field_status(), "published");
    assert_eq!(*a.field_comments_count(), 3);
    assert_eq!(a.field_metadata(), &Some("{}".to_string()));
    assert_eq!(a.field_extra(), &None);
    assert!(a.field_media().is_empty());
    assert!(a.field_feature_media().is_none());
    assert!(a.field_seo_metadata().is_none());
}

#[test]
fn article_id_of_a_negative_key() {
    assert_eq!(unloaded_article(-7).field_id(), "-7");
}

#[test]
fn unloaded_required_association_is_an_error() {
    let a = unloaded_article(1);
    assert_eq!(
        a.field_route().unwrap_err(),
        AssociationError::NotLoaded(AssociationType::HasOne)
    );
    let mut b = unloaded_article(2);
    b.route = Err(AssociationError::LoadFailed(AssociationType::HasOne));
    assert_eq!(
        b.field_route().unwrap_err(),
        AssociationError::LoadFailed(AssociationType::HasOne)
    );
}

#[test]
fn loaded_associations_are_lent_out() {
    let mut a = unloaded_article(1);
    a.route = Ok(graphql_api::graphql::Route {
        route: models::Route { id: 5, name: "news".to_string() },
    });
    assert_eq!(a.field_route().unwrap().field_name(), "news");
    let media = ArticleMedia {
        article_media: media_row(8, 1),
        article: Err(AssociationError::NotLoaded(AssociationType::HasOne)),
        image: Ok(image(9)),
        renditions: Vec::new(),
    };
    a.feature_media = Some(Box::new(media));
    let fm = a.field_feature_media().unwrap();
    assert_eq!(*fm.field_id(), 8);
    assert_eq!(fm.field_located(), "Berlin");
    assert_eq!(fm.field_image().unwrap().field_asset_id(), "a1b2");
}

#[test]
fn author_avatar_is_optional() {
    let row = models::Author {
        id: 2,
        name: "Jane".to_string(),
        role: "writer".to_string(),
        job_title: "Editor".to_string(),
        biography: None,
        slug: Some("jane".to_string()),
        twitter: None,
        facebook: None,
        instagram: None,
        author_media_id: Some(4),
    };
    let mut author = Author { author: row, avatar: None };
    assert!(author.field_avatar().is_none());
    assert_eq!(author.field_slug(), &Some("jane".to_string()));
    author.avatar = Some(Box::new(AuthorAvatar {
        author_avatar: models::AuthorAvatar { id: 4, image_id: 9, key: "avatar".to_string() },
        image: Ok(image(9)),
    }));
    assert_eq!(author.field_avatar().unwrap().field_key(), "avatar");
}

#[test]
fn seo_media_slots_are_separate() {
    let row = models::ArticleSeoMetadata {
        id: 1,
        meta_title: Some("t".to_string()),
        meta_description: None,
        og_title: None,
        og_description: None,
        twitter_title: None,
        twitter_description: Some("d".to_string()),
        seo_meta_media_id: None,
        seo_og_media_id: Some(6),
        seo_twitter_media_id: None,
    };
    let seo = ArticleSeoMetadata {
        article_seo_metadata: row,
        seo_meta_media: None,
        seo_og_media: Some(Box::new(ArticleSeoMedia {
            article_seo_media: models::ArticleSeoMedia { id: 6, image_id: 9, key: "og".to_string() },
            image: Err(AssociationError::NotLoaded(AssociationType::HasOne)),
        })),
        seo_twitter_media: None,
    };
    assert!(seo.field_seo_meta_media().is_none());
    assert_eq!(*seo.field_seo_og_media().unwrap().field_id(), 6);
    assert!(seo.field_seo_twitter_media().is_none());
    assert_eq!(seo.field_meta_title(), &Some("t".to_string()));
    assert_eq!(seo.field_twitter_description(), &Some("d".to_string()));
}

#[test]
fn edge_getters() {
    let e = Edge { node: 5u8, cursor: Cursor("Mg==".to_string()) };
    assert_eq!(*e.field_node(), 5);
    assert_eq!(e.field_cursor().0, "Mg==");
}

#[test]
fn roots() {
    assert_eq!(Query.field_api_version(), "1.0");
    assert!(Mutation.field_noop());
    let _root = MutationRoot;
}
