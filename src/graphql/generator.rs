//! Public URLs of stored assets.

use vstd::prelude::*;

verus! {

/// `s` without one trailing '/', where it ends with one.
pub open spec fn without_trailing_slash(s: Seq<char>) -> Seq<char> {
    if s.len() > 0 && s.last() == '/' {
        s.drop_last()
    } else {
        s
    }
}

/// The URL of asset `asset_id` with extension `file_extension` under the CDN base `cdn_url`.
pub open spec fn asset_url(cdn_url: Seq<char>, asset_id: Seq<char>, file_extension: Seq<char>) -> Seq<char> {
    without_trailing_slash(cdn_url) + seq!['/'] + asset_id + seq!['.'] + file_extension
}

/// Joins a CDN base URL, an asset id and a file extension into the asset's URL:
/// `<base>/<asset_id>.<file_extension>`, where one trailing '/' of the base is dropped.
pub fn generate_url(cdn_url: String, asset_id: &String, file_extension: &String) -> (r: String)
    ensures
        r@ == asset_url(cdn_url@, asset_id@, file_extension@),
{
    let n = cdn_url.as_str().unicode_len();
    let base: &str = if n > 0 && cdn_url.as_str().get_char(n - 1) == '/' {
        cdn_url.as_str().substring_char(0, n - 1)
    } else {
        cdn_url.as_str()
    };
    proof {
        if n > 0 && cdn_url@.last() == '/' {
            assert(base@ =~= cdn_url@.drop_last());
        }
        reveal_strlit("/");
        reveal_strlit(".");
    }
    let mut url = String::from_str(base);
    url.append("/");
    url.append(asset_id.as_str());
    url.append(".");
    url.append(file_extension.as_str());
    url
}

} // verus!
