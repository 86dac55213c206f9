//! The API key given on the command line.

use vstd::prelude::*;
use vstd::string::*;

verus! {

/// `s` begins with `prefix`.
pub open spec fn starts_with(s: Seq<char>, prefix: Seq<char>) -> bool {
    prefix.len() <= s.len() && s.subrange(0, prefix.len() as int) == prefix
}

/// The key carried by one argument: what follows `--api-key=` or
/// `OPENAI_API_KEY=`.
pub open spec fn key_of_arg(a: Seq<char>) -> Option<Seq<char>> {
    if starts_with(a, "--api-key="@) {
        Some(a.subrange("--api-key="@.len() as int, a.len() as int))
    } else if starts_with(a, "OPENAI_API_KEY="@) {
        Some(a.subrange("OPENAI_API_KEY="@.len() as int, a.len() as int))
    } else {
        None
    }
}

/// The key of the last argument that carries one.
pub open spec fn api_key_in(args: Seq<Seq<char>>) -> Option<Seq<char>>
    decreases args.len(),
{
    if args.len() == 0 {
        None
    } else {
        match key_of_arg(args.last()) {
            Some(k) => Some(k),
            None => api_key_in(args.drop_last()),
        }
    }
}

/// What follows `prefix` in `s`, when `s` begins with it.
pub fn strip_prefix(s: &str, prefix: &str) -> (r: Option<String>)
    ensures
        starts_with(s@, prefix@) ==> (r matches Some(rest) && rest@ == s@.subrange(
            prefix@.len() as int,
            s@.len() as int,
        )),
        !starts_with(s@, prefix@) ==> r is None,
{
    let n = s.unicode_len();
    let m = prefix.unicode_len();
    if m > n {
        return None;
    }
    let mut i: usize = 0;
    while i < m
        invariant
            n == s@.len(),
            m == prefix@.len(),
            m <= n,
            0 <= i <= m,
            forall|j: int| 0 <= j < i ==> s@[j] == prefix@[j],
        decreases m - i,
    {
        if s.get_char(i) != prefix.get_char(i) {
            assert(s@.subrange(0, m as int)[i as int] != prefix@[i as int]);
            return None;
        }
        i = i + 1;
    }
    assert(s@.subrange(0, m as int) =~= prefix@);
    Some(String::from_str(s.substring_char(m, n)))
}

/// The API key given by the arguments, if any: the last `--api-key=KEY`
/// or `OPENAI_API_KEY=KEY` wins.
pub fn api_key_from_args(args: &Vec<String>) -> (r: Option<String>)
    ensures
        r is None <==> api_key_in(args@.map_values(|a: String| a@)) is None,
        r matches Some(k) ==> api_key_in(args@.map_values(|a: String| a@)) == Some(k@),
{
    let mut key: Option<String> = None;
    let mut i: usize = 0;
    while i < args.len()
        invariant
            0 <= i <= args@.len(),
            key is None <==> api_key_in(args@.subrange(0, i as int).map_values(|a: String| a@)) is None,
            key matches Some(k) ==> api_key_in(args@.subrange(0, i as int).map_values(|a: String| a@))
                == Some(k@),
        decreases args@.len() - i,
    {
        let a = args[i].as_str();
        assert(args@.subrange(0, i + 1).map_values(|a: String| a@).drop_last() =~= args@.subrange(
            0,
            i as int,
        ).map_values(|a: String| a@));
        assert(args@.subrange(0, i + 1).map_values(|a: String| a@).last() == args@[i as int]@);
        match strip_prefix(a, "--api-key=") {
            Some(k) => {
                key = Some(k);
            },
            None => {
                match strip_prefix(a, "OPENAI_API_KEY=") {
                    Some(k) => {
                        key = Some(k);
                    },
                    None => {},
                }
            },
        }
        i = i + 1;
    }
    assert(args@.subrange(0, args@.len() as int) =~= args@);
    key
}

} // verus!
