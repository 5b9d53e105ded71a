use vstd::prelude::*;
use crate::asset::{asset_path_of, has_prefix, mime_of, resolve_asset, same_text, starts_with, ResolvedAsset};

verus! {

/// Where a request goes.
pub enum Route {
    /// A file under the static directory.
    Static(ResolvedAsset),
    /// The one API endpoint: all users from the database.
    ApiData,
    /// An API path that does not exist.
    ApiNotFound,
}

/// Paths under the API prefix.
pub open spec fn is_api_path(p: Seq<char>) -> bool {
    has_prefix(p, "/api"@)
}

/// Classifies a request path: API paths by their prefix, all others as files.
pub fn route(path: &str) -> (r: Route)
    ensures
        is_api_path(path@) && path@ == "/api/data"@ ==> r is ApiData,
        is_api_path(path@) && path@ != "/api/data"@ ==> r is ApiNotFound,
        !is_api_path(path@) ==> (r matches Route::Static(a) && a.file_path@ == asset_path_of(path@)
            && a.content_type@ == mime_of(asset_path_of(path@))),
{
    if starts_with(path, "/api") {
        if same_text(path, "/api/data") {
            Route::ApiData
        } else {
            Route::ApiNotFound
        }
    } else {
        Route::Static(resolve_asset(path))
    }
}

} // verus!
