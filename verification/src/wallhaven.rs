//! The catalog side of the library: candidate items, the request URLs the
//! application sends, and the derivation of local file names from catalog
//! data.
//!
//! The HTTP traffic itself is the application's job; everything here is a
//! pure computation on the configuration and on catalog values.

use vstd::prelude::*;
use crate::config::Config;
use crate::errors::SessionError;
use crate::text::{
    append_chars, append_str, chars_to_string, contains_chars, contains_seq, ends_with_chars_ci,
    ends_with_ci, find_last, is_ascii_alnum, all_ascii_alnum, lemma_match_at_single, match_at,
    spec_dec, starts_with_chars, str_to_chars, subrange_chars, u32_to_chars,
};

verus! {

/// One catalog item: its opaque id, the page a browser can show, and the
/// URL of the full image (the `path` the catalog reports).
#[derive(Debug, Clone)]
pub struct Wallpaper {
    pub id: String,
    pub short_url: String,
    pub path: String,
}

/// One collection of a catalog account.
#[derive(Debug, Clone)]
pub struct Collection {
    pub id: i64,
    pub label: String,
}

/// The catalog search URL for a filter set, an optional query, a page, and
/// an optional credential.
pub open spec fn spec_search_url(
    categories: Seq<char>,
    purity: Seq<char>,
    sorting: Seq<char>,
    ratios: Seq<char>,
    page: int,
    query: Option<Seq<char>>,
    api_key: Option<Seq<char>>,
) -> Seq<char> {
    "https://wallhaven.cc/api/v1/search?categories="@ + categories + "&purity="@ + purity
        + "&sorting="@ + sorting + "&ratios="@ + ratios + "&page="@ + spec_dec(page) + (match query {
        Some(q) => "&q="@ + q,
        None => Seq::<char>::empty(),
    }) + (match api_key {
        Some(k) => "&apikey="@ + k,
        None => Seq::<char>::empty(),
    })
}

/// Builds the search request URL for the configured filters, with the
/// configured ratio unless `ratio_override` replaces it.
pub fn build_search_url(
    config: &Config,
    query: Option<&str>,
    page: u32,
    ratio_override: Option<&str>,
) -> (r: String)
    ensures
        r@ == spec_search_url(
            config.categories@,
            config.purity@,
            config.sorting@,
            (match ratio_override {
                Some(o) => o@,
                None => config.ratios@,
            }),
            page as int,
            (match query {
                Some(q) => Some(q@),
                None => None,
            }),
            (match config.api_key {
                Some(k) => Some(k@),
                None => None,
            }),
        ),
{
    let mut out: Vec<char> = Vec::new();
    append_str(&mut out, "https://wallhaven.cc/api/v1/search?categories=");
    append_str(&mut out, config.categories.as_str());
    append_str(&mut out, "&purity=");
    append_str(&mut out, config.purity.as_str());
    append_str(&mut out, "&sorting=");
    append_str(&mut out, config.sorting.as_str());
    append_str(&mut out, "&ratios=");
    match ratio_override {
        Some(o) => append_str(&mut out, o),
        None => append_str(&mut out, config.ratios.as_str()),
    }
    append_str(&mut out, "&page=");
    let digits = u32_to_chars(page);
    append_chars(&mut out, &digits);
    match query {
        Some(q) => {
            append_str(&mut out, "&q=");
            append_str(&mut out, q);
        },
        None => {},
    }
    match &config.api_key {
        Some(k) => {
            append_str(&mut out, "&apikey=");
            append_str(&mut out, k.as_str());
        },
        None => {},
    }
    chars_to_string(&out)
}

/// The catalog URL answering with one item's detail.
pub open spec fn spec_info_url(id: Seq<char>, api_key: Option<Seq<char>>) -> Seq<char> {
    "https://wallhaven.cc/api/v1/w/"@ + id + (match api_key {
        Some(k) => "?apikey="@ + k,
        None => Seq::<char>::empty(),
    })
}

/// Builds the detail request URL for one catalog id.
pub fn build_info_url(id: &str, config: &Config) -> (r: String)
    ensures
        r@ == spec_info_url(
            id@,
            (match config.api_key {
                Some(k) => Some(k@),
                None => None,
            }),
        ),
{
    let mut out: Vec<char> = Vec::new();
    append_str(&mut out, "https://wallhaven.cc/api/v1/w/");
    append_str(&mut out, id);
    match &config.api_key {
        Some(k) => {
            append_str(&mut out, "?apikey=");
            append_str(&mut out, k.as_str());
        },
        None => {},
    }
    chars_to_string(&out)
}

/// Builds the URL listing the account's collections; without a credential
/// the catalog cannot answer, so that is refused up front.
pub fn build_collections_url(config: &Config) -> (r: Result<String, SessionError>)
    ensures
        match r {
            Ok(u) => config.api_key matches Some(k) && u@ == "https://wallhaven.cc/api/v1/collections?apikey="@
                + k@,
            Err(e) => config.api_key is None && e == SessionError::CatalogUnauthorized,
        },
{
    match &config.api_key {
        Some(k) => {
            let mut out: Vec<char> = Vec::new();
            append_str(&mut out, "https://wallhaven.cc/api/v1/collections?apikey=");
            append_str(&mut out, k.as_str());
            Ok(chars_to_string(&out))
        },
        None => Err(SessionError::CatalogUnauthorized),
    }
}

/// Builds the URL of the account-settings answer that names the user;
/// without a credential the catalog cannot answer, so that is refused up
/// front.
pub fn build_settings_url(config: &Config) -> (r: Result<String, SessionError>)
    ensures
        match r {
            Ok(u) => config.api_key matches Some(k) && u@ == "https://wallhaven.cc/api/v1/settings?apikey="@
                + k@,
            Err(e) => config.api_key is None && e == SessionError::CatalogUnauthorized,
        },
{
    match &config.api_key {
        Some(k) => {
            let mut out: Vec<char> = Vec::new();
            append_str(&mut out, "https://wallhaven.cc/api/v1/settings?apikey=");
            append_str(&mut out, k.as_str());
            Ok(chars_to_string(&out))
        },
        None => Err(SessionError::CatalogUnauthorized),
    }
}

/// The URL of one page of a collection.
pub open spec fn spec_collection_url(
    username: Seq<char>,
    collection_id: int,
    page: int,
    api_key: Option<Seq<char>>,
) -> Seq<char> {
    "https://wallhaven.cc/api/v1/collections/"@ + username + seq!['/'] + spec_dec(collection_id)
        + "?page="@ + spec_dec(page) + (match api_key {
        Some(k) => "&apikey="@ + k,
        None => Seq::<char>::empty(),
    })
}

/// Renders a non-negative collection id in decimal.
fn i64_to_chars(n: i64) -> (r: Vec<char>)
    requires
        n >= 0,
    ensures
        r@ == spec_dec(n as int),
    decreases n,
{
    if n < 10 {
        let mut r: Vec<char> = Vec::new();
        r.push(crate::text::digit_char(n as u32));
        assert(r@ =~= seq![crate::text::spec_digit_char(n as int)]);
        r
    } else {
        assert(n / 10 < n) by (nonlinear_arith)
            requires
                n >= 10,
        ;
        let mut r = i64_to_chars(n / 10);
        r.push(crate::text::digit_char((n % 10) as u32));
        r
    }
}

/// Builds the request URL for one page of a collection. Catalog collection
/// ids are non-negative.
pub fn build_collection_page_url(
    username: &str,
    collection_id: i64,
    page: u32,
    config: &Config,
) -> (r: String)
    requires
        collection_id >= 0,
    ensures
        r@ == spec_collection_url(
            username@,
            collection_id as int,
            page as int,
            (match config.api_key {
                Some(k) => Some(k@),
                None => None,
            }),
        ),
{
    let mut out: Vec<char> = Vec::new();
    append_str(&mut out, "https://wallhaven.cc/api/v1/collections/");
    append_str(&mut out, username);
    out.push('/');
    let ghost mid = out@;
    let digits = i64_to_chars(collection_id);
    append_chars(&mut out, &digits);
    append_str(&mut out, "?page=");
    let page_digits = u32_to_chars(page);
    append_chars(&mut out, &page_digits);
    match &config.api_key {
        Some(k) => {
            append_str(&mut out, "&apikey=");
            append_str(&mut out, k.as_str());
        },
        None => {},
    }
    let r = chars_to_string(&out);
    proof {
        assert(r@ =~= spec_collection_url(
            username@,
            collection_id as int,
            page as int,
            (match config.api_key {
                Some(k) => Some(k@),
                None => None::<Seq<char>>,
            }),
        ));
    }
    r
}

/// The browser page of one catalog item.
pub fn wallpaper_page_url(id: &str) -> (r: String)
    ensures
        r@ == "https://wallhaven.cc/w/"@ + id@,
{
    let mut out: Vec<char> = Vec::new();
    append_str(&mut out, "https://wallhaven.cc/w/");
    append_str(&mut out, id);
    chars_to_string(&out)
}

/// The browser search page for a plain query.
pub fn simple_search_page_url(query: &str) -> (r: String)
    ensures
        r@ == "https://wallhaven.cc/search?q="@ + query@,
{
    let mut out: Vec<char> = Vec::new();
    append_str(&mut out, "https://wallhaven.cc/search?q=");
    append_str(&mut out, query);
    chars_to_string(&out)
}

/// The browser search page carrying the session's query and filters.
pub fn full_search_page_url(query: &str, config: &Config, ratios: &str) -> (r: String)
    ensures
        r@ == "https://wallhaven.cc/search?q="@ + query@ + "&categories="@ + config.categories@
            + "&purity="@ + config.purity@ + "&sorting="@ + config.sorting@ + "&ratios="@
            + ratios@,
{
    let mut out: Vec<char> = Vec::new();
    append_str(&mut out, "https://wallhaven.cc/search?q=");
    append_str(&mut out, query);
    append_str(&mut out, "&categories=");
    append_str(&mut out, config.categories.as_str());
    append_str(&mut out, "&purity=");
    append_str(&mut out, config.purity.as_str());
    append_str(&mut out, "&sorting=");
    append_str(&mut out, config.sorting.as_str());
    append_str(&mut out, "&ratios=");
    append_str(&mut out, ratios);
    chars_to_string(&out)
}

/// `e` is the file extension derived from `path`: what follows the last
/// dot, or `jpg` when the path holds no dot at all.
pub open spec fn is_extension_of(e: Seq<char>, path: Seq<char>) -> bool {
    ||| ((forall|i: int| 0 <= i < path.len() ==> path[i] != '.') && e == "jpg"@)
    ||| (exists|i: int|
        0 <= i < path.len() && path[i] == '.' && (forall|j: int|
            i < j < path.len() ==> path[j] != '.') && e == path.skip(i + 1))
}

/// Derives the file extension from an image URL: what follows the last
/// dot, or `jpg` when there is none.
pub fn extension_of(path: &Vec<char>) -> (r: Vec<char>)
    ensures
        is_extension_of(r@, path@),
{
    let dot: Vec<char> = str_to_chars(".");
    proof {
        reveal_strlit(".");
        assert(dot@ =~= seq!['.']);
    }
    match find_last(path, &dot) {
        Some(i) => {
            proof {
                lemma_match_at_single(path@, '.', i as int);
                assert forall|j: int| i < j < path@.len() implies path@[j] != '.' by {
                    lemma_match_at_single(path@, '.', j);
                }
            }
            let n: usize = path.len();
            let r = subrange_chars(path, i + 1, n);
            proof {
                assert(r@ =~= path@.skip(i + 1));
            }
            r
        },
        None => {
            proof {
                assert forall|i: int| 0 <= i < path@.len() implies path@[i] != '.' by {
                    lemma_match_at_single(path@, '.', i);
                }
            }
            str_to_chars("jpg")
        },
    }
}

/// The local cache file name for a catalog item: `wallhaven-`, the id, a
/// dot, and the extension taken from the download URL.
pub fn wallpaper_filename(id: &str, url_path: &str) -> (r: String)
    ensures
        exists|e: Seq<char>|
            is_extension_of(e, url_path@) && r@ == "wallhaven-"@ + id@ + seq!['.'] + e,
{
    let path_chars = str_to_chars(url_path);
    let ext = extension_of(&path_chars);
    let mut out: Vec<char> = Vec::new();
    append_str(&mut out, "wallhaven-");
    append_str(&mut out, id);
    out.push('.');
    let ghost head = out@;
    append_chars(&mut out, &ext);
    let r = chars_to_string(&out);
    proof {
        assert(head =~= "wallhaven-"@ + id@ + seq!['.']);
        assert(r@ == "wallhaven-"@ + id@ + seq!['.'] + ext@);
    }
    r
}

/// Joins a directory and a file name with a path separator.
pub fn join_path(dir: &str, file: &str) -> (r: String)
    ensures
        r@ == dir@ + seq!['/'] + file@,
{
    let mut out: Vec<char> = Vec::new();
    append_str(&mut out, dir);
    out.push('/');
    append_str(&mut out, file);
    let r = chars_to_string(&out);
    proof {
        assert(r@ =~= dir@ + seq!['/'] + file@);
    }
    r
}

/// `seg` is the last `/`-separated segment of `s` (the whole of `s` when
/// it holds no slash).
pub open spec fn is_last_segment(seg: Seq<char>, s: Seq<char>) -> bool {
    ||| ((forall|i: int| 0 <= i < s.len() ==> s[i] != '/') && seg == s)
    ||| (exists|i: int|
        0 <= i < s.len() && s[i] == '/' && (forall|j: int| i < j < s.len() ==> s[j] != '/')
            && seg == s.skip(i + 1))
}

/// Derives a local file name from a direct image URL: the last path
/// segment, or `wallpaper.jpg` when that segment is empty.
pub fn filename_from_url(url: &str) -> (r: String)
    ensures
        exists|seg: Seq<char>|
            is_last_segment(seg, url@) && r@ == (if seg.len() == 0 {
                "wallpaper.jpg"@
            } else {
                seg
            }),
{
    let chars = str_to_chars(url);
    let slash: Vec<char> = str_to_chars("/");
    proof {
        reveal_strlit("/");
        assert(slash@ =~= seq!['/']);
    }
    let seg: Vec<char> = match find_last(&chars, &slash) {
        Some(i) => {
            proof {
                lemma_match_at_single(chars@, '/', i as int);
                assert forall|j: int| i < j < chars@.len() implies chars@[j] != '/' by {
                    lemma_match_at_single(chars@, '/', j);
                }
            }
            let n: usize = chars.len();
            let r = subrange_chars(&chars, i + 1, n);
            proof {
                assert(r@ =~= chars@.skip(i + 1));
            }
            r
        },
        None => {
            proof {
                assert forall|i: int| 0 <= i < chars@.len() implies chars@[i] != '/' by {
                    lemma_match_at_single(chars@, '/', i);
                }
            }
            chars
        },
    };
    if seg.len() == 0 {
        "wallpaper.jpg".to_owned()
    } else {
        chars_to_string(&seg)
    }
}

/// Reads the catalog id out of an applied wallpaper's file path: the last
/// path segment must be a cache file name — `wallhaven-`, the id, a dot
/// and an extension — and the id is what stands between the prefix and the
/// last dot.
pub fn id_from_wallpaper_path(path: &str) -> (r: Option<String>)
    ensures
        match r {
            Some(id) => exists|seg: Seq<char>|
                is_last_segment(seg, path@) && match_at(seg, "wallhaven-"@, 0) && exists|k: int|
                    10 <= k < seg.len() && seg[k] == '.' && (forall|j: int|
                        k < j < seg.len() ==> seg[j] != '.') && id@ == seg.subrange(10, k),
            None => exists|seg: Seq<char>|
                is_last_segment(seg, path@) && !(match_at(seg, "wallhaven-"@, 0) && exists|k: int|
                    10 <= k < seg.len() && seg[k] == '.'),
        },
{
    let chars = str_to_chars(path);
    let slash: Vec<char> = str_to_chars("/");
    proof {
        reveal_strlit("/");
        assert(slash@ =~= seq!['/']);
    }
    let seg: Vec<char> = match find_last(&chars, &slash) {
        Some(i) => {
            proof {
                lemma_match_at_single(chars@, '/', i as int);
                assert forall|j: int| i < j < chars@.len() implies chars@[j] != '/' by {
                    lemma_match_at_single(chars@, '/', j);
                }
            }
            let n: usize = chars.len();
            let r = subrange_chars(&chars, i + 1, n);
            proof {
                assert(r@ =~= chars@.skip(i + 1));
            }
            r
        },
        None => {
            proof {
                assert forall|i: int| 0 <= i < chars@.len() implies chars@[i] != '/' by {
                    lemma_match_at_single(chars@, '/', i);
                }
            }
            chars
        },
    };
    proof {
        assert(is_last_segment(seg@, path@));
    }
    let prefix = str_to_chars("wallhaven-");
    proof {
        reveal_strlit("wallhaven-");
    }
    if !starts_with_chars(&seg, &prefix) {
        return None;
    }
    let dot: Vec<char> = str_to_chars(".");
    proof {
        reveal_strlit(".");
        assert(dot@ =~= seq!['.']);
    }
    match find_last(&seg, &dot) {
        Some(k) => {
            proof {
                lemma_match_at_single(seg@, '.', k as int);
                assert forall|j: int| k < j < seg@.len() implies seg@[j] != '.' by {
                    lemma_match_at_single(seg@, '.', j);
                }
                assert(seg@.subrange(0, 10) == "wallhaven-"@);
                if k < 10 {
                    assert(seg@[k as int] == seg@.subrange(0, 10)[k as int]);
                }
            }
            if k >= 10 {
                Some(chars_to_string(&subrange_chars(&seg, 10, k)))
            } else {
                // Unreachable: the prefix holds no dot.
                None
            }
        },
        None => {
            proof {
                assert forall|k: int| 10 <= k < seg@.len() implies seg@[k] != '.' by {
                    lemma_match_at_single(seg@, '.', k);
                }
            }
            None
        },
    }
}

/// A catalog item page URL holds the separator `/w/` twelve characters
/// into its marker.
proof fn lemma_catalog_url_has_sep(s: Seq<char>, i: int)
    requires
        match_at(s, "wallhaven.cc/w/"@, i),
    ensures
        match_at(s, "/w/"@, i + 12),
{
    reveal_strlit("wallhaven.cc/w/");
    reveal_strlit("/w/");
    assert(s.subrange(i, i + 15) == "wallhaven.cc/w/"@);
    assert forall|j: int| 0 <= j < 3 implies s.subrange(i + 12, i + 15)[j] == "/w/"@[j] by {
        assert(s.subrange(i, i + 15)[12 + j] == "wallhaven.cc/w/"@[12 + j]);
    }
    assert(s.subrange(i + 12, i + 15) =~= "/w/"@);
}

/// Extracts the catalog id from an item page URL: everything after the
/// last `/w/`. Input without the catalog marker is handed back whole.
pub fn extract_id(input: &str) -> (r: String)
    ensures
        contains_seq(input@, "wallhaven.cc/w/"@) ==> exists|i: int|
            match_at(input@, "/w/"@, i) && (forall|j: int|
                j > i ==> !match_at(input@, "/w/"@, j)) && r@ == input@.skip(i + 3),
        !contains_seq(input@, "wallhaven.cc/w/"@) ==> r@ == input@,
{
    let chars = str_to_chars(input);
    let marker = str_to_chars("wallhaven.cc/w/");
    let sep = str_to_chars("/w/");
    proof {
        reveal_strlit("/w/");
        assert(sep@.len() == 3);
    }
    if contains_chars(&chars, &marker) {
        proof {
            let i = choose|i: int| match_at(chars@, marker@, i);
            lemma_catalog_url_has_sep(chars@, i);
        }
        match find_last(&chars, &sep) {
            Some(i) => {
                let n: usize = chars.len();
                let r = chars_to_string(&subrange_chars(&chars, i + 3, n));
                proof {
                    assert(r@ =~= chars@.skip(i + 3));
                    assert(forall|j: int|
                        j > i ==> !match_at(chars@, "/w/"@, j));
                }
                r
            },
            None => {
                // Unreachable: the marker itself holds the separator.
                input.to_owned()
            },
        }
    } else {
        input.to_owned()
    }
}

/// A free-form input holds a catalog item URL.
pub open spec fn is_catalog_reference(s: Seq<char>) -> bool {
    contains_seq(s, "wallhaven.cc/w/"@)
}

/// A free-form input has the shape of a bare catalog id: exactly six ASCII
/// letters or digits.
pub open spec fn looks_like_id(s: Seq<char>) -> bool {
    s.len() == 6 && forall|i: int| 0 <= i < s.len() ==> is_ascii_alnum(s[i])
}

/// A free-form input is a direct image URL: it starts with `http` and, with
/// ASCII letters folded to lower case, ends in a known image extension.
pub open spec fn is_direct_image(s: Seq<char>) -> bool {
    match_at(s, "http"@, 0) && (ends_with_ci(s, ".jpg"@) || ends_with_ci(s, ".jpeg"@)
        || ends_with_ci(s, ".png"@) || ends_with_ci(s, ".webp"@))
}

/// What a free-form main-menu input asks for.
#[derive(Debug)]
pub enum InputKind {
    /// A catalog item URL; the carried string is the extracted id.
    CatalogUrl(String),
    /// Six alphanumeric characters: possibly a bare catalog id, to be
    /// probed against the catalog and treated as a search on failure.
    PossibleId,
    /// A direct image URL to download as it is.
    DirectImage,
    /// Anything else: a free-text search.
    SearchQuery,
}

/// Classifies a free-form input, in order: a catalog item URL, a bare
/// six-character id, a direct image URL, and otherwise a search query.
/// The id shape is a heuristic: a six-letter search term matches it too,
/// which is why such input is only probed, never trusted.
pub fn classify_input(input: &str) -> (r: InputKind)
    ensures
        is_catalog_reference(input@) ==> (r matches InputKind::CatalogUrl(id) && exists|i: int|
            match_at(input@, "/w/"@, i) && (forall|j: int|
                j > i ==> !match_at(input@, "/w/"@, j)) && id@ == input@.skip(i + 3)),
        !is_catalog_reference(input@) && looks_like_id(input@) ==> r is PossibleId,
        !is_catalog_reference(input@) && !looks_like_id(input@) && is_direct_image(input@)
            ==> r is DirectImage,
        !is_catalog_reference(input@) && !looks_like_id(input@) && !is_direct_image(input@)
            ==> r is SearchQuery,
{
    let chars = str_to_chars(input);
    let marker = str_to_chars("wallhaven.cc/w/");
    if contains_chars(&chars, &marker) {
        return InputKind::CatalogUrl(extract_id(input));
    }
    if chars.len() == 6 && all_ascii_alnum(&chars) {
        return InputKind::PossibleId;
    }
    let http = str_to_chars("http");
    if starts_with_chars(&chars, &http) && (ends_with_chars_ci(&chars, &str_to_chars(".jpg"))
        || ends_with_chars_ci(&chars, &str_to_chars(".jpeg")) || ends_with_chars_ci(
        &chars,
        &str_to_chars(".png"),
    ) || ends_with_chars_ci(&chars, &str_to_chars(".webp"))) {
        return InputKind::DirectImage;
    }
    InputKind::SearchQuery
}

} // verus!
