//! Endpoint URLs: the configured base with trailing slashes removed, plus
//! the fixed path of each backend operation.

use vstd::prelude::*;

verus! {

/// The base URL with every trailing `/` removed.
pub open spec fn spec_trim_base(s: Seq<char>) -> Seq<char>
    decreases s.len(),
{
    if s.len() > 0 && s.last() == '/' {
        spec_trim_base(s.drop_last())
    } else {
        s
    }
}

pub fn trim_base(s: &str) -> (r: String)
    ensures
        r@ == spec_trim_base(s@),
{
    let len = s.unicode_len();
    let mut end = len;
    proof {
        assert(s@.take(len as int) =~= s@);
    }
    while end > 0 && s.get_char(end - 1) == '/'
        invariant
            end <= len,
            len == s@.len(),
            spec_trim_base(s@.take(end as int)) == spec_trim_base(s@),
        decreases end,
    {
        proof {
            assert(s@.take(end as int).last() == s@[end - 1]);
            assert(s@.take(end as int).drop_last() =~= s@.take(end - 1));
        }
        end -= 1;
    }
    proof {
        assert(s@.take(len as int) =~= s@);
        assert(spec_trim_base(s@.take(end as int)) == s@.take(end as int));
    }
    String::from_str(s.substring_char(0, end))
}

fn join(base: &str, path: &str) -> (r: String)
    ensures
        r@ == spec_trim_base(base@) + path@,
{
    trim_base(base).concat(path)
}

/// `GET`: the daemon's model inventory.
pub fn tags_endpoint(base: &str) -> (r: String)
    ensures
        r@ == spec_trim_base(base@) + "/api/tags"@,
{
    join(base, "/api/tags")
}

/// `POST`: the daemon's structured chat operation.
pub fn chat_endpoint(base: &str) -> (r: String)
    ensures
        r@ == spec_trim_base(base@) + "/api/chat"@,
{
    join(base, "/api/chat")
}

/// `POST`: the daemon's plain completion operation, used by the fallback.
pub fn generate_endpoint(base: &str) -> (r: String)
    ensures
        r@ == spec_trim_base(base@) + "/api/generate"@,
{
    join(base, "/api/generate")
}

/// `POST`: the daemon's streaming model download.
pub fn pull_endpoint(base: &str) -> (r: String)
    ensures
        r@ == spec_trim_base(base@) + "/api/pull"@,
{
    join(base, "/api/pull")
}

/// `POST`: the remote provider's chat completion operation.
pub fn completions_endpoint(base: &str) -> (r: String)
    ensures
        r@ == spec_trim_base(base@) + "/chat/completions"@,
{
    join(base, "/chat/completions")
}

/// `GET`: the remote provider's model inventory.
pub fn remote_models_endpoint(base: &str) -> (r: String)
    ensures
        r@ == spec_trim_base(base@) + "/v1/models"@,
{
    join(base, "/v1/models")
}

} // verus!
