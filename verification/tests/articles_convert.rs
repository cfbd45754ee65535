//! Tests of the verified parsers and the article-to-row conversions.

use just_links::articles::{
    convert_article_to_article_author_models, convert_article_to_article_image_models,
    convert_article_to_article_model, convert_article_to_article_video_models,
    filter_displayable, parse_bool, parse_i32, Article, ItemAuthor, ItemImage, ItemVideo,
    Pagination,
};

fn empty_article() -> Article {
    Article {
        item_id: "item-1".to_string(),
        resolved_id: None,
        given_url: None,
        given_title: None,
        favorite: None,
        status: 0,
        time_added: None,
        time_updated: None,
        time_read: None,
        time_favorited: None,
        sort_id: None,
        resolved_url: None,
        resolved_title: None,
        excerpt: None,
        is_article: None,
        is_index: None,
        has_image: None,
        has_video: None,
        word_count: None,
        tags: None,
        authors: None,
        images: None,
        videos: None,
        lang: None,
        time_to_read: None,
        listen_duration_estimate: None,
        top_image_url: None,
    }
}

#[test]
fn parse_i32_exact_values() {
    assert_eq!(parse_i32("0"), Some(0));
    assert_eq!(parse_i32("42"), Some(42));
    assert_eq!(parse_i32("+42"), Some(42));
    assert_eq!(parse_i32("-42"), Some(-42));
    assert_eq!(parse_i32("2147483647"), Some(i32::MAX));
    assert_eq!(parse_i32("-2147483648"), Some(i32::MIN));
    assert_eq!(parse_i32("2147483648"), None);
    assert_eq!(parse_i32("-2147483649"), None);
    assert_eq!(parse_i32("99999999999999999999"), None);
    assert_eq!(parse_i32(""), None);
    assert_eq!(parse_i32("-"), None);
    assert_eq!(parse_i32("+"), None);
    assert_eq!(parse_i32("12a"), None);
    assert_eq!(parse_i32("a12"), None);
    assert_eq!(parse_i32(" 12"), None);
    assert_eq!(parse_i32("1 2"), None);
}

#[test]
fn parse_bool_exact_values() {
    assert_eq!(parse_bool("true"), Some(true));
    assert_eq!(parse_bool("false"), Some(false));
    assert_eq!(parse_bool("True"), None);
    assert_eq!(parse_bool("1"), None);
    assert_eq!(parse_bool(""), None);
}

#[test]
fn article_model_conversion_parses_and_falls_back() {
    let mut article = empty_article();
    article.favorite = Some("true".to_string());
    article.status = 2;
    article.word_count = Some("123".to_string());
    article.is_article = Some("0".to_string());
    article.is_index = Some("1".to_string());
    article.sort_id = Some(7);
    article.has_image = Some(1);
    let model = convert_article_to_article_model(article, 99).unwrap();
    assert_eq!(model.user_id, 99);
    assert_eq!(model.item_id, "item-1");
    assert!(model.favorite);
    assert_eq!(model.status, 2);
    assert_eq!(model.word_count, Some(123));
    assert!(!model.is_article);
    assert!(model.is_index);
    assert_eq!(model.sort_id, Some(7));
    assert_eq!(model.has_image, Some(1));
    assert_eq!(model.has_video, None);

    // Fallbacks: an unparsable favorite counts as false, a missing index
    // flag as true, an unparsable word count as none.
    let mut article = empty_article();
    article.favorite = Some("yes".to_string());
    article.word_count = Some("many".to_string());
    let model = convert_article_to_article_model(article, 1).unwrap();
    assert!(!model.favorite);
    assert!(model.is_article);
    assert!(model.is_index);
    assert_eq!(model.word_count, None);
}

#[test]
fn video_models_parse_dimensions_or_zero() {
    let mut article = empty_article();
    article.videos = Some(vec![
        ItemVideo {
            item_id: "i1".to_string(),
            video_id: "v1".to_string(),
            src: "s1".to_string(),
            height: "480".to_string(),
            width: "640".to_string(),
            length: Some("120".to_string()),
            vid: "vid1".to_string(),
        },
        ItemVideo {
            item_id: "i2".to_string(),
            video_id: "v2".to_string(),
            src: "s2".to_string(),
            height: "tall".to_string(),
            width: "".to_string(),
            length: Some("soon".to_string()),
            vid: "vid2".to_string(),
        },
    ]);
    let models = convert_article_to_article_video_models(article, 5).unwrap();
    assert_eq!(models.len(), 2);
    assert_eq!(models[0].article_id, 5);
    assert_eq!(models[0].height, 480);
    assert_eq!(models[0].width, 640);
    assert_eq!(models[0].length, Some(120));
    assert_eq!(models[1].height, 0);
    assert_eq!(models[1].width, 0);
    assert_eq!(models[1].length, None);

    let none = convert_article_to_article_video_models(empty_article(), 5).unwrap();
    assert!(none.is_empty());
}

#[test]
fn image_and_author_models_convert() {
    let mut article = empty_article();
    article.images = Some(vec![ItemImage {
        item_id: "i1".to_string(),
        image_id: "img1".to_string(),
        src: "s".to_string(),
        height: "10".to_string(),
        width: "-3".to_string(),
        credit: "c".to_string(),
        caption: "cap".to_string(),
    }]);
    article.authors = Some(vec![ItemAuthor {
        id: "a1".to_string(),
        name: "n".to_string(),
        url: "u".to_string(),
    }]);
    let images = convert_article_to_article_image_models(article.clone(), 9).unwrap();
    assert_eq!(images.len(), 1);
    assert_eq!(images[0].height, 10);
    assert_eq!(images[0].width, -3);
    assert_eq!(images[0].caption, "cap");
    let authors = convert_article_to_article_author_models(article, 9).unwrap();
    assert_eq!(authors.len(), 1);
    assert_eq!(authors[0].author_id, "a1");
}

#[test]
fn listing_filters_untitled_articles() {
    let mut with_both = empty_article();
    with_both.given_title = Some("t".to_string());
    with_both.given_url = Some("u".to_string());
    let mut title_only = empty_article();
    title_only.given_title = Some("t".to_string());
    let kept = filter_displayable(vec![
        with_both.clone(),
        title_only,
        empty_article(),
        with_both,
    ]);
    assert_eq!(kept.len(), 2);
    assert!(kept.iter().all(|a| a.given_title.is_some() && a.given_url.is_some()));
}

#[test]
fn pagination_offset() {
    assert_eq!(Pagination { page: 0 }.offset(), 0);
    assert_eq!(Pagination { page: 3 }.offset(), 90);
}
