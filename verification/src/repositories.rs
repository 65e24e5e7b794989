//! The computed parts of the data-access queries: paging, search patterns and
//! the choice of query text.

use vstd::prelude::*;

use crate::text::str_eq;
use vstd::string::StringExecFns;

verus! {

broadcast use vstd::string::group_string_axioms;

/// Rows skipped before page `page` (counted from 1) of `page_size` rows.
pub open spec fn spec_page_offset(page: int, page_size: int) -> int {
    (page - 1) * page_size
}

/// Pages follow one another without gap or overlap: the first page starts at
/// row 0, and each page starts `page_size` rows after the one before it.
pub proof fn lemma_pages_are_page_size_apart(page: int, page_size: int)
    ensures
        spec_page_offset(1, page_size) == 0,
        spec_page_offset(page + 1, page_size) == spec_page_offset(page, page_size) + page_size,
{
    assert((page + 1 - 1) * page_size == (page - 1) * page_size + page_size) by (nonlinear_arith);
    assert((1 - 1) * page_size == 0) by (nonlinear_arith);
}

/// Rows skipped before page `page` (counted from 1) of `page_size` rows.
pub fn page_offset(page: i64, page_size: i64) -> (res: i64)
    requires
        i64::MIN <= spec_page_offset(page as int, page_size as int) <= i64::MAX,
        page > i64::MIN,
    ensures
        res == spec_page_offset(page as int, page_size as int),
{
    (page - 1) * page_size
}

/// The offset, or `None` where it does not fit in an `i64`.
pub fn checked_page_offset(page: i64, page_size: i64) -> (res: Option<i64>)
    ensures
        match res {
            Some(o) => o == spec_page_offset(page as int, page_size as int),
            None => !(page > i64::MIN && i64::MIN <= spec_page_offset(page as int, page_size as int)
                <= i64::MAX),
        },
{
    if page == i64::MIN {
        return None;
    }
    let prev = page - 1;
    match prev.checked_mul(page_size) {
        Some(_) => Some(page_offset(page, page_size)),
        None => None,
    }
}

/// The `ILIKE` pattern matching texts that contain `keyword`.
pub fn keyword_pattern(keyword: &str) -> (res: String)
    ensures
        res@ == "%"@ + keyword@ + "%"@,
{
    let mut res = "%".to_string();
    res.append(keyword);
    res.append("%");
    res
}

/// The `LIKE` pattern matching texts that start with `prefix`.
pub fn prefix_pattern(prefix: &str) -> (res: String)
    ensures
        res@ == prefix@ + "%"@,
{
    let mut res = prefix.to_string();
    res.append("%");
    res
}

/// `"ORDER BY view_count DESC"`
pub open spec fn order_by_views() -> Seq<char> {
    "ORDER BY view_count DESC"@
}

/// `"ORDER BY created_at DESC"`
pub open spec fn order_by_newest() -> Seq<char> {
    "ORDER BY created_at DESC"@
}

/// Articles are listed by views when asked for `view_count`, newest first
/// otherwise.
pub fn article_order_clause(order_by: &str) -> (res: &'static str)
    ensures
        res@ == if order_by@ == "view_count"@ {
            order_by_views()
        } else {
            order_by_newest()
        },
{
    if str_eq(order_by, "view_count") {
        "ORDER BY view_count DESC"
    } else {
        "ORDER BY created_at DESC"
    }
}

/// The article query up to its ordering clause.
pub open spec fn article_list_head() -> Seq<char> {
    "\n            SELECT id, title, content, summary, author_id, category_id, tags, status, view_count, cover_image, created_at, updated_at\n            FROM articles\n            WHERE ($1::BIGINT IS NULL OR category_id = $1)\n              AND ($2::TEXT IS NULL OR status = $2)\n              AND ($3::TEXT IS NULL OR (title ILIKE $3 OR content ILIKE $3))\n            "@
}

/// The article query after its ordering clause.
pub open spec fn article_list_tail() -> Seq<char> {
    "\n            LIMIT $4 OFFSET $5\n            "@
}

/// The page query of the article list, ordered as `order_by` asks.
pub fn article_list_query(order_by: &str) -> (res: String)
    ensures
        res@ == article_list_head() + (if order_by@ == "view_count"@ {
            order_by_views()
        } else {
            order_by_newest()
        }) + article_list_tail(),
{
    let mut res = "\n            SELECT id, title, content, summary, author_id, category_id, tags, status, view_count, cover_image, created_at, updated_at\n            FROM articles\n            WHERE ($1::BIGINT IS NULL OR category_id = $1)\n              AND ($2::TEXT IS NULL OR status = $2)\n              AND ($3::TEXT IS NULL OR (title ILIKE $3 OR content ILIKE $3))\n            ".to_string();
    res.append(article_order_clause(order_by));
    res.append("\n            LIMIT $4 OFFSET $5\n            ");
    res
}

/// The count and page queries of the asset list: filtered by a MIME type
/// pattern (bound first) when a prefix is given, unfiltered otherwise.
pub fn asset_list_queries(has_prefix: bool) -> (res: (&'static str, &'static str))
    ensures
        has_prefix ==> res.0@ == "SELECT COUNT(*) FROM assets WHERE mime_type LIKE $1"@ && res.1@
            == "SELECT id, filename, file_path, mime_type, size, uploader_id, created_at\n                 FROM assets\n                 WHERE mime_type LIKE $1\n                 ORDER BY created_at DESC\n                 LIMIT $2 OFFSET $3"@,
        !has_prefix ==> res.0@ == "SELECT COUNT(*) FROM assets"@ && res.1@
            == "SELECT id, filename, file_path, mime_type, size, uploader_id, created_at\n                 FROM assets\n                 ORDER BY created_at DESC\n                 LIMIT $1 OFFSET $2"@,
{
    if has_prefix {
        (
            "SELECT COUNT(*) FROM assets WHERE mime_type LIKE $1",
            "SELECT id, filename, file_path, mime_type, size, uploader_id, created_at\n                 FROM assets\n                 WHERE mime_type LIKE $1\n                 ORDER BY created_at DESC\n                 LIMIT $2 OFFSET $3",
        )
    } else {
        (
            "SELECT COUNT(*) FROM assets",
            "SELECT id, filename, file_path, mime_type, size, uploader_id, created_at\n                 FROM assets\n                 ORDER BY created_at DESC\n                 LIMIT $1 OFFSET $2",
        )
    }
}

} // verus!
