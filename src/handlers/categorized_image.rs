use vstd::prelude::*;
use crate::errors::AppError;
use crate::validator::QueryOpts;

verus! {

/// The search endpoint of the remote image provider, up to its key.
pub open spec fn search_base() -> Seq<char> {
    "https://pixabay.com/api/?key="@
}

/// The address of the one search call made for a term.
pub open spec fn search_url_spec(api_key: Seq<char>, term: Seq<char>) -> Seq<char> {
    search_base() + api_key + "&q="@ + term + "&image_type=photo"@
}

/// The message for a search that found no image.
pub open spec fn no_hits_msg() -> Seq<char> {
    "failed sampling image from PixaBay API"@
}

/// The address of the search call for the options of a request, with the
/// provider's key.
pub fn search_url(api_key: &str, opts: &QueryOpts) -> (r: String)
    ensures
        r@ == search_url_spec(api_key@, opts.query@),
{
    let mut url = "https://pixabay.com/api/?key=".to_owned();
    url.append(api_key);
    url.append("&q=");
    url.append(opts.query.as_str());
    url.append("&image_type=photo");
    url
}

/// Picks the image to fetch from the image addresses of the search hits, in
/// the order the provider returned them: the first one, or an error where
/// there is none.
pub fn first_hit(hits: Vec<String>) -> (r: Result<String, AppError>)
    ensures
        hits@.len() == 0 ==> (r matches Err(AppError::SomeError { msg }) && msg@ == no_hits_msg()),
        hits@.len() > 0 ==> r == Ok::<String, AppError>(hits@[0]),
{
    if hits.len() == 0 {
        Err(AppError::SomeError { msg: "failed sampling image from PixaBay API".to_owned() })
    } else {
        let mut hits = hits;
        Ok(hits.swap_remove(0))
    }
}

} // verus!
