//! Saved-item records as the third-party authority reports them, the flat
//! row models the relational sink takes, and the conversions between the
//! two.
//!
//! The third party reports numbers as decimal strings; the conversions
//! parse them with the verified parsers below, falling back the way the
//! service always has (an unparsable flag counts as false, an unparsable
//! dimension as zero).

use vstd::prelude::*;
use vstd::string::{StringExecFns, StrSliceExecFns};

use crate::error::Error;

verus! {

/// An author entry of a saved item.
#[derive(Debug, Clone)]
pub struct ItemAuthor {
    pub id: String,
    pub name: String,
    pub url: String,
}

/// An image entry of a saved item; dimensions come as decimal strings.
#[derive(Debug, Clone)]
pub struct ItemImage {
    pub item_id: String,
    pub image_id: String,
    pub src: String,
    pub height: String,
    pub width: String,
    pub credit: String,
    pub caption: String,
}

/// A video entry of a saved item; dimensions come as decimal strings.
#[derive(Debug, Clone)]
pub struct ItemVideo {
    pub item_id: String,
    pub video_id: String,
    pub src: String,
    pub height: String,
    pub width: String,
    pub length: Option<String>,
    pub vid: String,
}

/// A saved item as reported by the third party, with its loosely typed
/// fields kept as they arrive: flags and counts are decimal strings, and
/// most fields are optional.
#[derive(Debug, Clone)]
pub struct Article {
    pub item_id: String,
    pub resolved_id: Option<String>,
    pub given_url: Option<String>,
    pub given_title: Option<String>,
    pub favorite: Option<String>,
    pub status: u8,
    pub time_added: Option<i64>,
    pub time_updated: Option<i64>,
    pub time_read: Option<i64>,
    pub time_favorited: Option<i64>,
    pub sort_id: Option<u32>,
    pub resolved_url: Option<String>,
    pub resolved_title: Option<String>,
    pub excerpt: Option<String>,
    pub is_article: Option<String>,
    pub is_index: Option<String>,
    pub has_image: Option<u8>,
    pub has_video: Option<u8>,
    pub word_count: Option<String>,
    pub tags: Option<String>,
    pub authors: Option<Vec<ItemAuthor>>,
    pub images: Option<Vec<ItemImage>>,
    pub videos: Option<Vec<ItemVideo>>,
    pub lang: Option<String>,
    pub time_to_read: Option<u32>,
    pub listen_duration_estimate: Option<u32>,
    pub top_image_url: Option<String>,
}

/// Page selector of the article listing.
#[derive(Debug, Clone)]
pub struct Pagination {
    pub page: u32,
}

impl Pagination {
    /// Articles served per page.
    pub const PER_PAGE: u32 = 30;

    /// Offset of the first article of this page.
    pub fn offset(&self) -> (r: u32)
        requires
            self.page <= u32::MAX / 30,
        ensures
            r == 30 * self.page,
    {
        Pagination::PER_PAGE * self.page
    }
}

/// Body of the article listing response.
#[derive(Debug, Clone)]
pub struct GetArticlesResponse {
    pub articles: Vec<Article>,
}

/// Row model of a saved item, flat and typed for the relational sink.
#[derive(Debug, Clone)]
pub struct ArticleModel {
    pub user_id: i32,
    pub item_id: String,
    pub resolved_id: Option<String>,
    pub given_url: Option<String>,
    pub given_title: Option<String>,
    pub favorite: bool,
    pub status: i32,
    pub time_added: Option<i64>,
    pub time_updated: Option<i64>,
    pub time_read: Option<i64>,
    pub time_favorited: Option<i64>,
    pub sort_id: Option<i32>,
    pub resolved_url: Option<String>,
    pub resolved_title: Option<String>,
    pub excerpt: Option<String>,
    pub is_article: bool,
    pub is_index: bool,
    pub has_image: Option<i32>,
    pub has_video: Option<i32>,
    pub word_count: Option<i32>,
    pub tags: Option<String>,
    pub lang: Option<String>,
    pub time_to_read: Option<i32>,
    pub listen_duration_estimate: Option<i32>,
    pub top_image_url: Option<String>,
}

/// Row model of a video entry.
#[derive(Debug, Clone)]
pub struct ArticleVideoModel {
    pub article_id: i32,
    pub item_id: String,
    pub video_id: String,
    pub src: String,
    pub height: i32,
    pub width: i32,
    pub length: Option<i32>,
    pub vid: String,
}

/// Row model of an image entry.
#[derive(Debug, Clone)]
pub struct ArticleImageModel {
    pub article_id: i32,
    pub item_id: String,
    pub image_id: String,
    pub src: String,
    pub height: i32,
    pub width: i32,
    pub credit: String,
    pub caption: String,
}

/// Row model of an author entry.
#[derive(Debug, Clone)]
pub struct ArticleAuthorModel {
    pub article_id: i32,
    pub author_id: String,
    pub name: String,
    pub url: String,
}

/// What parsing a boolean flag yields: exactly the words `true` and
/// `false` parse.
pub open spec fn spec_parse_bool(s: Seq<char>) -> Option<bool> {
    if s == "true"@ {
        Some(true)
    } else if s == "false"@ {
        Some(false)
    } else {
        None
    }
}

/// Parses a boolean flag.
pub fn parse_bool(s: &str) -> (r: Option<bool>)
    ensures
        r == spec_parse_bool(s@),
{
    let v = s.to_owned();
    let t = String::from_str("true");
    let f = String::from_str("false");
    if v == t {
        Some(true)
    } else if v == f {
        Some(false)
    } else {
        None
    }
}

pub open spec fn spec_is_digit(c: char) -> bool {
    '0' <= c && c <= '9'
}

pub open spec fn spec_all_digits(s: Seq<char>) -> bool {
    forall|i: int| 0 <= i < s.len() ==> spec_is_digit(#[trigger] s[i])
}

/// Value of a digit string, read left to right.
pub open spec fn spec_digits_val(s: Seq<char>) -> int
    decreases s.len(),
{
    if s.len() == 0 {
        0
    } else {
        spec_digits_val(s.drop_last()) * 10 + (s.last() as int - '0' as int)
    }
}

/// What parsing a decimal integer yields: an optional sign, then digits;
/// anything else, or a value outside the 32-bit range, does not parse.
pub open spec fn spec_parse_i32(s: Seq<char>) -> Option<i32> {
    let negative = s.len() > 0 && s[0] == '-';
    let digits = if s.len() > 0 && (s[0] == '-' || s[0] == '+') {
        s.subrange(1, s.len() as int)
    } else {
        s
    };
    if digits.len() == 0 || !spec_all_digits(digits) {
        None
    } else {
        let magnitude = spec_digits_val(digits);
        let value = if negative {
            -magnitude
        } else {
            magnitude
        };
        if i32::MIN <= value <= i32::MAX {
            Some(value as i32)
        } else {
            None
        }
    }
}

/// The value of a digit string is never negative.
proof fn lemma_digits_val_nonneg(s: Seq<char>)
    requires
        spec_all_digits(s),
    ensures
        spec_digits_val(s) >= 0,
    decreases s.len(),
{
    if s.len() > 0 {
        assert(spec_all_digits(s.drop_last()));
        lemma_digits_val_nonneg(s.drop_last());
    }
}

/// Parses a decimal 32-bit integer: optional sign, digits, range checked.
pub fn parse_i32(s: &str) -> (r: Option<i32>)
    ensures
        r == spec_parse_i32(s@),
{
    let n = s.unicode_len();
    if n == 0 {
        return None;
    }
    let first = s.get_char(0);
    let negative = first == '-';
    let start: usize = if first == '-' || first == '+' {
        1
    } else {
        0
    };
    if n == start {
        return None;
    }
    let ghost digits = if start == 1 {
        s@.subrange(1, s@.len() as int)
    } else {
        s@
    };
    assert(digits =~= s@.subrange(start as int, n as int));
    let mut i: usize = start;
    let mut acc: i64 = 0;
    let mut too_large: bool = false;
    while i < n
        invariant
            start <= i <= n,
            n == s@.len(),
            n > 0,
            start == 0 || start == 1,
            start < n,
            (start == 1) <==> (s@[0] == '-' || s@[0] == '+'),
            digits =~= s@.subrange(start as int, n as int),
            spec_all_digits(s@.subrange(start as int, i as int)),
            !too_large ==> acc == spec_digits_val(s@.subrange(start as int, i as int)),
            !too_large ==> 0 <= acc <= 0x8000_0000,
            too_large ==> spec_digits_val(s@.subrange(start as int, i as int)) > 0x8000_0000,
        decreases n - i,
    {
        let c = s.get_char(i);
        let code = c as u32;
        if code < 48 || code > 57 {
            proof {
                assert(!spec_is_digit(s@[i as int]));
                assert(digits[i as int - start as int] == s@[i as int]);
                assert(!spec_all_digits(digits));
                let spec_digits = if s@.len() > 0 && (s@[0] == '-' || s@[0] == '+') {
                    s@.subrange(1, s@.len() as int)
                } else {
                    s@
                };
                if start == 0 {
                    assert(s@.subrange(0, n as int) =~= s@);
                }
                assert(spec_digits == digits);
                assert(spec_parse_i32(s@) is None);
            }
            return None;
        }
        assert(s@.subrange(start as int, i as int + 1).drop_last() =~= s@.subrange(
            start as int,
            i as int,
        ));
        proof {
            if too_large {
                lemma_digits_val_nonneg(s@.subrange(start as int, i as int));
            }
        }
        if !too_large {
            acc = acc * 10 + ((code - 48) as i64);
            if acc > 0x8000_0000 {
                too_large = true;
            }
        }
        i += 1;
    }
    assert(digits =~= s@.subrange(start as int, n as int));
    if too_large {
        proof {
            lemma_digits_val_nonneg(digits);
        }
        return None;
    }
    let value: i64 = if negative {
        -acc
    } else {
        acc
    };
    if value < i32::MIN as i64 || value > i32::MAX as i64 {
        None
    } else {
        Some(value as i32)
    }
}

/// How the flag strings fold to booleans: an unparsable favorite flag
/// counts as not favorite; a missing or non-`"0"` index flag counts as set.
pub open spec fn spec_favorite_flag(favorite: Option<String>) -> bool {
    match favorite {
        Some(s) => match spec_parse_bool(s@) {
            Some(b) => b,
            None => false,
        },
        None => false,
    }
}

pub open spec fn spec_nonzero_flag(flag: Option<String>) -> bool {
    match flag {
        Some(s) => !(s@ == "0"@),
        None => true,
    }
}

pub open spec fn spec_opt_i32_of_u32(v: Option<u32>) -> Option<i32> {
    match v {
        Some(x) => Some(x as i32),
        None => None,
    }
}

pub open spec fn spec_opt_i32_of_u8(v: Option<u8>) -> Option<i32> {
    match v {
        Some(x) => Some(x as i32),
        None => None,
    }
}

/// Flattens a saved item into its row model.  Never fails: unparsable
/// flags and counts fall back instead.
pub fn convert_article_to_article_model(article: Article, user_id: i32) -> (r: Result<
    ArticleModel,
    Error,
>)
    ensures
        r matches Ok(m) && {
            &&& m.user_id == user_id
            &&& m.item_id == article.item_id
            &&& m.resolved_id == article.resolved_id
            &&& m.given_url == article.given_url
            &&& m.given_title == article.given_title
            &&& m.favorite == spec_favorite_flag(article.favorite)
            &&& m.status == article.status as i32
            &&& m.time_added == article.time_added
            &&& m.time_updated == article.time_updated
            &&& m.time_read == article.time_read
            &&& m.time_favorited == article.time_favorited
            &&& m.sort_id == spec_opt_i32_of_u32(article.sort_id)
            &&& m.resolved_url == article.resolved_url
            &&& m.resolved_title == article.resolved_title
            &&& m.excerpt == article.excerpt
            &&& m.is_article == spec_nonzero_flag(article.is_article)
            &&& m.is_index == spec_nonzero_flag(article.is_index)
            &&& m.has_image == spec_opt_i32_of_u8(article.has_image)
            &&& m.has_video == spec_opt_i32_of_u8(article.has_video)
            &&& (m.word_count matches Option::<i32>::Some(w) ==> article.word_count matches Some(
                s,
            ) && spec_parse_i32(s@) == Some(w))
            &&& (m.word_count is None ==> (match article.word_count {
                Some(s) => spec_parse_i32(s@) is None,
                None => true,
            }))
            &&& m.tags == article.tags
            &&& m.lang == article.lang
            &&& m.time_to_read == spec_opt_i32_of_u32(article.time_to_read)
            &&& m.listen_duration_estimate == spec_opt_i32_of_u32(
                article.listen_duration_estimate,
            )
            &&& m.top_image_url == article.top_image_url
        },
{
    let favorite = match &article.favorite {
        Some(s) => match parse_bool(s.as_str()) {
            Some(b) => b,
            None => false,
        },
        None => false,
    };
    let zero = String::from_str("0");
    let is_article = match &article.is_article {
        Some(s) => !(*s == zero),
        None => true,
    };
    let is_index = match &article.is_index {
        Some(s) => !(*s == zero),
        None => true,
    };
    let word_count = match &article.word_count {
        Some(s) => parse_i32(s.as_str()),
        None => None,
    };
    let model = ArticleModel {
        user_id,
        item_id: article.item_id,
        resolved_id: article.resolved_id,
        given_url: article.given_url,
        given_title: article.given_title,
        favorite,
        status: article.status as i32,
        time_added: article.time_added,
        time_updated: article.time_updated,
        time_read: article.time_read,
        time_favorited: article.time_favorited,
        sort_id: match article.sort_id {
            Some(v) => Some(v as i32),
            None => None,
        },
        resolved_url: article.resolved_url,
        resolved_title: article.resolved_title,
        excerpt: article.excerpt,
        is_article,
        is_index,
        has_image: match article.has_image {
            Some(v) => Some(v as i32),
            None => None,
        },
        has_video: match article.has_video {
            Some(v) => Some(v as i32),
            None => None,
        },
        word_count,
        tags: article.tags,
        lang: article.lang,
        time_to_read: match article.time_to_read {
            Some(v) => Some(v as i32),
            None => None,
        },
        listen_duration_estimate: match article.listen_duration_estimate {
            Some(v) => Some(v as i32),
            None => None,
        },
        top_image_url: article.top_image_url,
    };
    Ok(model)
}

/// A dimension string folds to its parsed value, or zero.
pub open spec fn spec_dimension(s: &String) -> i32 {
    match spec_parse_i32(s@) {
        Some(v) => v,
        None => 0i32,
    }
}

fn parse_dimension(s: &String) -> (r: i32)
    ensures
        r == spec_dimension(s),
{
    match parse_i32(s.as_str()) {
        Some(v) => v,
        None => 0,
    }
}

/// Row model a video entry flattens to.
pub open spec fn spec_video_model(m: ArticleVideoModel, v: ItemVideo, article_id: i32) -> bool {
    &&& m.article_id == article_id
    &&& m.item_id == v.item_id
    &&& m.video_id == v.video_id
    &&& m.src == v.src
    &&& m.height == spec_dimension(&v.height)
    &&& m.width == spec_dimension(&v.width)
    &&& (m.length == match v.length {
        Some(l) => spec_parse_i32(l@),
        None => None,
    })
    &&& m.vid == v.vid
}

/// Flattens the video entries of a saved item; an item without videos
/// yields no rows.  Never fails.
pub fn convert_article_to_article_video_models(article: Article, article_id: i32) -> (r: Result<
    Vec<ArticleVideoModel>,
    Error,
>)
    ensures
        r matches Ok(models) && (match article.videos {
            Some(videos) => models@.len() == videos@.len() && (forall|i: int|
                0 <= i < videos@.len() ==> spec_video_model(
                    #[trigger] models@[i],
                    videos@[i],
                    article_id,
                )),
            None => models@.len() == 0,
        }),
{
    let mut models: Vec<ArticleVideoModel> = Vec::new();
    let mut videos = match article.videos {
        Some(videos) => videos,
        None => {
            return Ok(models);
        },
    };
    let ghost orig = videos@;
    while videos.len() > 0
        invariant
            models@.len() + videos@.len() == orig.len(),
            videos@ =~= orig.subrange(models@.len() as int, orig.len() as int),
            forall|i: int|
                0 <= i < models@.len() ==> spec_video_model(
                    #[trigger] models@[i],
                    orig[i],
                    article_id,
                ),
        decreases videos.len(),
    {
        let v = videos.remove(0);
        let height = parse_dimension(&v.height);
        let width = parse_dimension(&v.width);
        let length = match &v.length {
            Some(l) => parse_i32(l.as_str()),
            None => None,
        };
        models.push(
            ArticleVideoModel {
                article_id,
                item_id: v.item_id,
                video_id: v.video_id,
                src: v.src,
                height,
                width,
                length,
                vid: v.vid,
            },
        );
    }
    Ok(models)
}

/// Row model an image entry flattens to.
pub open spec fn spec_image_model(m: ArticleImageModel, v: ItemImage, article_id: i32) -> bool {
    &&& m.article_id == article_id
    &&& m.item_id == v.item_id
    &&& m.image_id == v.image_id
    &&& m.src == v.src
    &&& m.height == spec_dimension(&v.height)
    &&& m.width == spec_dimension(&v.width)
    &&& m.credit == v.credit
    &&& m.caption == v.caption
}

/// Flattens the image entries of a saved item; an item without images
/// yields no rows.  Never fails.
pub fn convert_article_to_article_image_models(article: Article, article_id: i32) -> (r: Result<
    Vec<ArticleImageModel>,
    Error,
>)
    ensures
        r matches Ok(models) && (match article.images {
            Some(images) => models@.len() == images@.len() && (forall|i: int|
                0 <= i < images@.len() ==> spec_image_model(
                    #[trigger] models@[i],
                    images@[i],
                    article_id,
                )),
            None => models@.len() == 0,
        }),
{
    let mut models: Vec<ArticleImageModel> = Vec::new();
    let mut images = match article.images {
        Some(images) => images,
        None => {
            return Ok(models);
        },
    };
    let ghost orig = images@;
    while images.len() > 0
        invariant
            models@.len() + images@.len() == orig.len(),
            images@ =~= orig.subrange(models@.len() as int, orig.len() as int),
            forall|i: int|
                0 <= i < models@.len() ==> spec_image_model(
                    #[trigger] models@[i],
                    orig[i],
                    article_id,
                ),
        decreases images.len(),
    {
        let v = images.remove(0);
        let height = parse_dimension(&v.height);
        let width = parse_dimension(&v.width);
        models.push(
            ArticleImageModel {
                article_id,
                item_id: v.item_id,
                image_id: v.image_id,
                src: v.src,
                height,
                width,
                credit: v.credit,
                caption: v.caption,
            },
        );
    }
    Ok(models)
}

/// Row model an author entry flattens to.
pub open spec fn spec_author_model(m: ArticleAuthorModel, v: ItemAuthor, article_id: i32) -> bool {
    &&& m.article_id == article_id
    &&& m.author_id == v.id
    &&& m.name == v.name
    &&& m.url == v.url
}

/// Flattens the author entries of a saved item; an item without authors
/// yields no rows.  Never fails.
pub fn convert_article_to_article_author_models(article: Article, article_id: i32) -> (r: Result<
    Vec<ArticleAuthorModel>,
    Error,
>)
    ensures
        r matches Ok(models) && (match article.authors {
            Some(authors) => models@.len() == authors@.len() && (forall|i: int|
                0 <= i < authors@.len() ==> spec_author_model(
                    #[trigger] models@[i],
                    authors@[i],
                    article_id,
                )),
            None => models@.len() == 0,
        }),
{
    let mut models: Vec<ArticleAuthorModel> = Vec::new();
    let mut authors = match article.authors {
        Some(authors) => authors,
        None => {
            return Ok(models);
        },
    };
    let ghost orig = authors@;
    while authors.len() > 0
        invariant
            models@.len() + authors@.len() == orig.len(),
            authors@ =~= orig.subrange(models@.len() as int, orig.len() as int),
            forall|i: int|
                0 <= i < models@.len() ==> spec_author_model(
                    #[trigger] models@[i],
                    orig[i],
                    article_id,
                ),
        decreases authors.len(),
    {
        let v = authors.remove(0);
        models.push(ArticleAuthorModel { article_id, author_id: v.id, name: v.name, url: v.url });
    }
    Ok(models)
}

/// Whether the listing shows an article: it needs both a title and a URL.
pub open spec fn spec_displayable(a: Article) -> bool {
    a.given_title is Some && a.given_url is Some
}

/// Keeps exactly the articles the listing shows, in order.
pub fn filter_displayable(articles: Vec<Article>) -> (r: Vec<Article>)
    ensures
        r@ == articles@.filter(|a: Article| spec_displayable(a)),
{
    let mut kept: Vec<Article> = Vec::new();
    let mut rest = articles;
    let ghost orig = rest@;
    proof {
        assert(orig.subrange(0, 0) =~= Seq::<Article>::empty());
        assert(orig.subrange(0, 0).filter(|a: Article| spec_displayable(a)) =~= Seq::<
            Article,
        >::empty()) by {
            reveal(Seq::filter);
        }
    }
    while rest.len() > 0
        invariant
            rest@.len() <= orig.len(),
            rest@ =~= orig.subrange(orig.len() - rest@.len(), orig.len() as int),
            kept@ == orig.subrange(0, orig.len() - rest@.len()).filter(
                |a: Article| spec_displayable(a),
            ),
        decreases rest.len(),
    {
        let ghost done: int = orig.len() - rest@.len();
        assert(0 <= done && done < orig.len());
        let a = rest.remove(0);
        let keep = a.given_title.is_some() && a.given_url.is_some();
        proof {
            assert(a == orig[done]);
            assert(orig.subrange(0, done + 1).drop_last() =~= orig.subrange(0, done));
            assert(orig.subrange(0, done + 1).last() == orig[done]);
            reveal(Seq::filter);
            assert(rest@ =~= orig.subrange(orig.len() - rest@.len(), orig.len() as int));
        }
        if keep {
            kept.push(a);
        }
    }
    proof {
        assert(orig.subrange(0, orig.len() as int) =~= orig);
    }
    kept
}

} // verus!
