//! API messages and their construction from database rows.

use vstd::prelude::*;

use crate::models::{self, UtcTime};
use crate::text::opt_view;
use vstd::string::StringExecFns;

verus! {

broadcast use vstd::string::group_string_axioms;

/// The RFC 3339 text `chrono` gives a UTC instant (`+00:00` offset, fraction
/// of a second only when nonzero), or `None` when the instant is outside
/// chrono's range.
pub uninterp spec fn rfc3339_text(secs: i64, nanos: u32) -> Option<Seq<char>>;

/// `chrono::DateTime::<Utc>::from_timestamp` followed by `to_rfc3339`: the
/// claim is that the result is the text named by `rfc3339_text`, and `None`
/// exactly where that name is `None`.
#[verifier::external_body]
fn utc_rfc3339(secs: i64, nanos: u32) -> (res: Option<String>)
    ensures
        opt_view(res) == rfc3339_text(secs, nanos),
{
    chrono::DateTime::from_timestamp(secs, nanos).map(|t| t.to_rfc3339())
}

/// A point in time as text.
#[derive(Debug, Clone)]
pub struct Timestamp {
    pub value: String,
}

/// The message form of an instant (`None` outside chrono's range).
pub open spec fn spec_timestamp(t: UtcTime) -> Option<Seq<char>> {
    rfc3339_text(t.secs, t.nanos)
}

/// The text of an optional timestamp message.
pub open spec fn timestamp_view(t: Option<Timestamp>) -> Option<Seq<char>> {
    match t {
        Some(ts) => Some(ts.value@),
        None => None,
    }
}

impl Timestamp {
    /// The RFC 3339 form of an instant.
    pub fn from_utc(t: UtcTime) -> (res: Option<Timestamp>)
        ensures
            timestamp_view(res) == spec_timestamp(t),
    {
        match utc_rfc3339(t.secs, t.nanos) {
            Some(value) => Some(Timestamp { value }),
            None => None,
        }
    }
}

/// A text, or the empty text.
pub open spec fn text_or_empty(o: Option<String>) -> Seq<char> {
    match o {
        Some(s) => s@,
        None => Seq::empty(),
    }
}

fn string_or_empty(o: &Option<String>) -> (res: String)
    ensures
        res@ == text_or_empty(*o),
{
    match o {
        Some(s) => s.clone(),
        None => String::new(),
    }
}

fn clone_strings(v: &Vec<String>) -> (res: Vec<String>)
    ensures
        res@.len() == v@.len(),
        forall|i: int| 0 <= i < v@.len() ==> #[trigger] res@[i]@ == v@[i]@,
{
    let mut res: Vec<String> = Vec::new();
    let mut i: usize = 0;
    while i < v.len()
        invariant
            i <= v@.len(),
            res@.len() == i,
            forall|j: int| 0 <= j < i ==> #[trigger] res@[j]@ == v@[j]@,
        decreases v.len() - i,
    {
        res.push(v[i].clone());
        i = i + 1;
    }
    res
}

/// A user as shown to clients (no password hash).
#[derive(Debug, Clone)]
pub struct User {
    pub id: i64,
    pub username: String,
    pub email: String,
    pub role: String,
    pub created_at: Option<Timestamp>,
}

/// `message` shows `user`: same id, name, email and role, and the creation
/// time in RFC 3339 form.
pub open spec fn user_message_of(message: User, user: models::User) -> bool {
    &&& message.id == user.id
    &&& message.username@ == user.username@
    &&& message.email@ == user.email@
    &&& message.role@ == user.role@
    &&& timestamp_view(message.created_at) == spec_timestamp(user.created_at)
}

impl User {
    pub fn from_model(user: &models::User) -> (res: User)
        ensures
            user_message_of(res, *user),
    {
        User {
            id: user.id,
            username: user.username.clone(),
            email: user.email.clone(),
            role: user.role.clone(),
            created_at: Timestamp::from_utc(user.created_at),
        }
    }
}

/// The message of a user depends on its id, name, email, role and creation
/// time alone: two users that differ only in password hash or update time
/// are shown alike, so the password hash never reaches a client.
pub proof fn lemma_user_message_ignores_secrets(
    m1: User,
    m2: User,
    u1: models::User,
    u2: models::User,
)
    requires
        user_message_of(m1, u1),
        user_message_of(m2, u2),
        u1.id == u2.id,
        u1.username@ == u2.username@,
        u1.email@ == u2.email@,
        u1.role@ == u2.role@,
        u1.created_at == u2.created_at,
    ensures
        m1.id == m2.id,
        m1.username@ == m2.username@,
        m1.email@ == m2.email@,
        m1.role@ == m2.role@,
        timestamp_view(m1.created_at) == timestamp_view(m2.created_at),
{
}

/// An article as shown to clients.
#[derive(Debug, Clone)]
pub struct Article {
    pub id: i64,
    pub title: String,
    pub content: String,
    pub summary: String,
    pub author_id: i64,
    pub author_name: String,
    pub category_id: i64,
    pub category_name: String,
    pub tags: Vec<String>,
    pub status: String,
    pub view_count: i64,
    pub cover_image: String,
    pub created_at: Option<Timestamp>,
    pub updated_at: Option<Timestamp>,
}

impl Article {
    /// Absent summary and cover image become empty texts, an absent category
    /// becomes 0; author and category names are left empty.
    pub fn from_model(article: &models::Article) -> (res: Article)
        ensures
            res.id == article.id,
            res.title@ == article.title@,
            res.content@ == article.content@,
            res.summary@ == text_or_empty(article.summary),
            res.author_id == article.author_id,
            res.author_name@ == Seq::<char>::empty(),
            res.category_id == match article.category_id {
                Some(c) => c,
                None => 0,
            },
            res.category_name@ == Seq::<char>::empty(),
            res.tags@.len() == article.tags@.len(),
            forall|i: int| 0 <= i < article.tags@.len() ==> #[trigger] res.tags@[i]@ == article.tags@[i]@,
            res.status@ == article.status@,
            res.view_count == article.view_count,
            res.cover_image@ == text_or_empty(article.cover_image),
            timestamp_view(res.created_at) == spec_timestamp(article.created_at),
            timestamp_view(res.updated_at) == spec_timestamp(article.updated_at),
    {
        Article {
            id: article.id,
            title: article.title.clone(),
            content: article.content.clone(),
            summary: string_or_empty(&article.summary),
            author_id: article.author_id,
            author_name: String::new(),
            category_id: match article.category_id {
                Some(c) => c,
                None => 0,
            },
            category_name: String::new(),
            tags: clone_strings(&article.tags),
            status: article.status.clone(),
            view_count: article.view_count,
            cover_image: string_or_empty(&article.cover_image),
            created_at: Timestamp::from_utc(article.created_at),
            updated_at: Timestamp::from_utc(article.updated_at),
        }
    }
}

/// A category as shown to clients.
#[derive(Debug, Clone)]
pub struct Category {
    pub id: i64,
    pub name: String,
    pub slug: String,
    pub description: String,
    pub article_count: i32,
}

impl Category {
    /// An absent description becomes the empty text; the article count is 0.
    pub fn from_model(category: &models::Category) -> (res: Category)
        ensures
            res.id == category.id,
            res.name@ == category.name@,
            res.slug@ == category.slug@,
            res.description@ == text_or_empty(category.description),
            res.article_count == 0,
    {
        Category {
            id: category.id,
            name: category.name.clone(),
            slug: category.slug.clone(),
            description: string_or_empty(&category.description),
            article_count: 0,
        }
    }
}

/// An asset as shown to clients, with its download URL.
#[derive(Debug, Clone)]
pub struct Asset {
    pub id: i64,
    pub filename: String,
    pub file_path: String,
    pub url: String,
    pub mime_type: String,
    pub size: i64,
    pub uploader_id: i64,
    pub created_at: Option<Timestamp>,
}

/// The URL an asset is served under: `/uploads/` and its file path.
pub open spec fn asset_url(file_path: Seq<char>) -> Seq<char> {
    "/uploads/"@ + file_path
}

impl Asset {
    pub fn from_model(asset: &models::Asset) -> (res: Asset)
        ensures
            res.id == asset.id,
            res.filename@ == asset.filename@,
            res.file_path@ == asset.file_path@,
            res.url@ == asset_url(asset.file_path@),
            res.mime_type@ == asset.mime_type@,
            res.size == asset.size,
            res.uploader_id == asset.uploader_id,
            timestamp_view(res.created_at) == spec_timestamp(asset.created_at),
    {
        let mut url = "/uploads/".to_string();
        url.append(asset.file_path.as_str());
        Asset {
            id: asset.id,
            filename: asset.filename.clone(),
            file_path: asset.file_path.clone(),
            url,
            mime_type: asset.mime_type.clone(),
            size: asset.size,
            uploader_id: asset.uploader_id,
            created_at: Timestamp::from_utc(asset.created_at),
        }
    }
}

/// Answer to a registration.
#[derive(Debug, Clone)]
pub struct RegisterResponse {
    pub user: Option<User>,
    pub token: String,
}

/// Answer to a login.
#[derive(Debug, Clone)]
pub struct LoginResponse {
    pub user: Option<User>,
    pub token: String,
    pub expires_in: i64,
}

/// Answer to a token check.
#[derive(Debug, Clone)]
pub struct VerifyTokenResponse {
    pub valid: bool,
    pub user: Option<User>,
}

} // verus!
