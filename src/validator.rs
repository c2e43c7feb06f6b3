use vstd::prelude::*;
use crate::errors::AppError;

verus! {

/// The fewest characters a search term may have.
pub const MIN_QUERY_LEN: usize = 3;

/// The most characters a search term may have.
pub const MAX_QUERY_LEN: usize = 30;

/// The options of the categorized-image endpoint: the search term.
#[derive(Debug, Clone, PartialEq, Eq)]
pub struct QueryOpts {
    pub query: String,
}

/// The value of `q` in the query string `s`, scanning from position `i`
/// inside the `&`-separated segment that begins at `start`.
///
/// A segment `q=<value>` names the parameter; the first such segment wins.
pub open spec fn q_scan(s: Seq<char>, start: int, i: int) -> Option<Seq<char>>
    decreases s.len() - i,
{
    if i >= s.len() || s[i] == '&' {
        if i - start >= 2 && s[start] == 'q' && s[start + 1] == '=' {
            Some(s.subrange(start + 2, i))
        } else if i >= s.len() {
            None
        } else {
            q_scan(s, i + 1, i + 1)
        }
    } else {
        q_scan(s, start, i + 1)
    }
}

/// The raw value of the first `q=` parameter of a query string, if any.
pub open spec fn q_param(s: Seq<char>) -> Option<Seq<char>> {
    q_scan(s, 0, 0)
}

/// Whether a search term has an accepted length, counted in characters.
pub open spec fn length_ok(v: Seq<char>) -> bool {
    MIN_QUERY_LEN <= v.len() <= MAX_QUERY_LEN
}

/// The message for a request that carries no query string at all.
pub open spec fn missing_query_msg() -> Seq<char> {
    "failed parsing query"@
}

/// The message for a query string without a `q` parameter.
pub open spec fn missing_q_msg() -> Seq<char> {
    "only qs 'q' is accepted"@
}

/// Finds the raw value of the first `q=` parameter of a query string.
pub fn find_q(s: &str) -> (r: Option<String>)
    ensures
        q_param(s@) is None ==> r is None,
        q_param(s@) matches Some(v) ==> (r matches Some(x) && x@ == v),
{
    let n = s.unicode_len();
    let mut start: usize = 0;
    let mut i: usize = 0;
    loop
        invariant
            n as int == s@.len(),
            start <= i <= n,
            q_scan(s@, start as int, i as int) == q_param(s@),
        decreases n - i,
    {
        if i == n || s.get_char(i) == '&' {
            if i - start >= 2 && s.get_char(start) == 'q' && s.get_char(start + 1) == '=' {
                let v = s.substring_char(start + 2, i);
                return Some(v.to_owned());
            } else if i == n {
                return None;
            } else {
                start = i + 1;
                i = i + 1;
            }
        } else {
            i = i + 1;
        }
    }
}

/// Checks that a search term has between `MIN_QUERY_LEN` and
/// `MAX_QUERY_LEN` characters.
pub fn validate_query(q: &str) -> (r: Result<(), AppError>)
    ensures
        length_ok(q@) <==> r is Ok,
        !length_ok(q@) ==> r == Err::<(), AppError>(
            AppError::ValidationError { min: MIN_QUERY_LEN, max: MAX_QUERY_LEN, actual: q@.len() as usize },
        ),
{
    let n = q.unicode_len();
    if MIN_QUERY_LEN <= n && n <= MAX_QUERY_LEN {
        Ok(())
    } else {
        Err(AppError::ValidationError { min: MIN_QUERY_LEN, max: MAX_QUERY_LEN, actual: n })
    }
}

/// Reads the options of the categorized-image endpoint from the raw query
/// string of a request (`None` where the request has none).
pub fn parse_query(raw: Option<&str>) -> (r: Result<QueryOpts, AppError>)
    ensures
        match raw {
            None => r matches Err(AppError::SomeError { msg }) && msg@ == missing_query_msg(),
            Some(s) => match q_param(s@) {
                None => r matches Err(AppError::SomeError { msg }) && msg@ == missing_q_msg(),
                Some(v) => if length_ok(v) {
                    r matches Ok(o) && o.query@ == v
                } else {
                    r == Err::<QueryOpts, AppError>(
                        AppError::ValidationError {
                            min: MIN_QUERY_LEN,
                            max: MAX_QUERY_LEN,
                            actual: v.len() as usize,
                        },
                    )
                },
            },
        },
{
    let s = match raw {
        Some(s) => s,
        None => {
            return Err(AppError::SomeError { msg: "failed parsing query".to_owned() });
        },
    };
    let q = match find_q(s) {
        Some(q) => q,
        None => {
            return Err(AppError::SomeError { msg: "only qs 'q' is accepted".to_owned() });
        },
    };
    match validate_query(q.as_str()) {
        Ok(()) => Ok(QueryOpts { query: q }),
        Err(e) => Err(e),
    }
}

} // verus!
