//! Decoding of a request's query string into [`MyQueryParams`].
//!
//! Splitting the query string into percent-decoded pairs is left to the
//! `form_urlencoded` crate. Reading the one required field out of those pairs is
//! verified here.

use vstd::prelude::*;
use vstd::string::StringExecFns;

verus! {

/// The parameters of a request for a greeting by name.
#[derive(Debug, Clone, PartialEq, Eq)]
pub struct MyQueryParams {
    /// The name to greet. Any text is accepted, the empty text too.
    pub name: String,
}

/// Why a query string was refused.
#[derive(Debug, Clone, Copy, PartialEq, Eq)]
pub enum QueryRejection {
    /// No pair of the query has the key `name`.
    MissingName,
    /// More than one pair of the query has the key `name`.
    DuplicateName,
}

/// A decoded query: its name and value pairs in the order they were written.
pub type Pairs = Seq<(Seq<char>, Seq<char>)>;

/// The key under which a query carries the name.
pub open spec fn name_key() -> Seq<char> {
    "name"@
}

/// The pairs of a query whose key is `name`, in order.
pub open spec fn named(pairs: Pairs) -> Pairs {
    pairs.filter(|pair: (Seq<char>, Seq<char>)| pair.0 == name_key())
}

/// What a decoded query means: the name it carries, when it carries exactly one.
pub open spec fn decoded(pairs: Pairs) -> Result<Seq<char>, QueryRejection> {
    let found = named(pairs);
    if found.len() == 0 {
        Err(QueryRejection::MissingName)
    } else if found.len() == 1 {
        Ok(found[0].1)
    } else {
        Err(QueryRejection::DuplicateName)
    }
}

/// The text sent back with a refused query.
pub open spec fn rejection_text(rejection: QueryRejection) -> Seq<char> {
    match rejection {
        QueryRejection::MissingName => "Failed to deserialize query string: missing field `name`"@,
        QueryRejection::DuplicateName => "Failed to deserialize query string: duplicate field `name`"@,
    }
}

/// The pairs that `form_urlencoded::parse` reads from a query string: split at
/// `&` and at the first `=` of each part, with `+` and percent escapes decoded.
pub uninterp spec fn query_pairs(query: Seq<char>) -> Pairs;

/// Calls `form_urlencoded::parse` on the bytes of `query` and collects the pairs
/// it yields. The contract only gives that result its name: the pairs depend on
/// the text of the query and on nothing else.
#[verifier::external_body]
fn parse_pairs(query: &str) -> (pairs: Vec<(String, String)>)
    ensures
        pairs.deep_view() == query_pairs(query@),
{
    form_urlencoded::parse(query.as_bytes()).into_owned().collect()
}

/// Extending a query by one pair extends its `name` pairs by that pair, or not at all.
proof fn lemma_named_push(pairs: Pairs, pair: (Seq<char>, Seq<char>))
    ensures
        named(pairs.push(pair)) == if pair.0 == name_key() {
            named(pairs).push(pair)
        } else {
            named(pairs)
        },
{
    let longer = pairs.push(pair);
    reveal(Seq::filter);
    assert(longer.drop_last() =~= pairs);
    assert(longer.last() == pair);
}

impl QueryRejection {
    /// The text sent back with this rejection.
    pub fn message(&self) -> (text: &'static str)
        ensures
            text@ == rejection_text(*self),
    {
        match self {
            QueryRejection::MissingName => "Failed to deserialize query string: missing field `name`",
            QueryRejection::DuplicateName => "Failed to deserialize query string: duplicate field `name`",
        }
    }
}

impl MyQueryParams {
    /// The names of the fields a query must carry, each exactly once.
    pub open spec fn spec_fields() -> Seq<Seq<char>> {
        seq![name_key()]
    }

    /// The names of the fields a query must carry, each exactly once.
    pub fn fields() -> (names: Vec<&'static str>)
        ensures
            names@.len() == Self::spec_fields().len(),
            forall|i: int| 0 <= i < names@.len() ==> names@[i]@ == Self::spec_fields()[i],
    {
        let mut names: Vec<&'static str> = Vec::new();
        names.push("name");
        names
    }

    /// Reads the parameters out of a decoded query.
    ///
    /// Succeeds exactly when one pair has the key `name`, and then carries that
    /// pair's value unchanged. Pairs under other keys are ignored.
    pub fn from_pairs(pairs: &Vec<(String, String)>) -> (result: Result<MyQueryParams, QueryRejection>)
        ensures
            match result {
                Ok(params) => decoded(pairs.deep_view()) == Ok::<Seq<char>, QueryRejection>(params.name@),
                Err(rejection) => decoded(pairs.deep_view()) == Err::<Seq<char>, QueryRejection>(rejection),
            },
    {
        let key = String::from_str("name");
        let ghost all = pairs.deep_view();
        let mut first: Option<String> = None;
        let mut seen_twice = false;
        let mut i: usize = 0;
        proof {
            assert(all.take(0) =~= Seq::empty());
            reveal(Seq::filter);
        }
        while i < pairs.len()
            invariant
                i <= pairs.len(),
                all == pairs.deep_view(),
                key@ == name_key(),
                seen_twice <==> named(all.take(i as int)).len() >= 2,
                !seen_twice ==> (first is None <==> named(all.take(i as int)).len() == 0),
                !seen_twice ==> (first matches Some(value) ==> named(all.take(i as int)).len() == 1
                    && named(all.take(i as int))[0].1 == value@),
            decreases pairs.len() - i,
        {
            proof {
                lemma_named_push(all.take(i as int), all[i as int]);
                assert(all.take(i as int + 1) =~= all.take(i as int).push(all[i as int]));
            }
            if pairs[i].0 == key {
                if first.is_some() {
                    seen_twice = true;
                } else {
                    first = Some(pairs[i].1.clone());
                }
            }
            i += 1;
        }
        proof {
            assert(all.take(i as int) =~= all);
        }
        if seen_twice {
            Err(QueryRejection::DuplicateName)
        } else {
            match first {
                Some(name) => Ok(MyQueryParams { name }),
                None => Err(QueryRejection::MissingName),
            }
        }
    }

    /// Decodes a query string.
    ///
    /// The string is split into pairs by `form_urlencoded`; the result is what
    /// [`MyQueryParams::from_pairs`] reads from those pairs. A request without a
    /// query string has no pairs.
    pub fn from_query(query: Option<&str>) -> (result: Result<MyQueryParams, QueryRejection>)
        ensures
            match result {
                Ok(params) => decoded(pairs_of(query)) == Ok::<Seq<char>, QueryRejection>(params.name@),
                Err(rejection) => decoded(pairs_of(query)) == Err::<Seq<char>, QueryRejection>(rejection),
            },
    {
        match query {
            Some(text) => {
                let pairs = parse_pairs(text);
                MyQueryParams::from_pairs(&pairs)
            },
            None => {
                let pairs: Vec<(String, String)> = Vec::new();
                MyQueryParams::from_pairs(&pairs)
            },
        }
    }
}

/// The pairs of a request's query string, none where the request has no query string.
pub open spec fn pairs_of(query: Option<&str>) -> Pairs {
    match query {
        Some(text) => query_pairs(text@),
        None => Seq::empty(),
    }
}

} // verus!
