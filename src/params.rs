//! Query parameter validation: every supplied parameter name must be in the
//! endpoint's allow-list.

use vstd::prelude::*;

use crate::error::ClientError;
use crate::json::{has_key, str_eq, unique_keys};

verus! {

/// Whether `name` is in the allow-list.
pub open spec fn allows(allowed: Seq<&str>, name: Seq<char>) -> bool {
    exists|i: int| 0 <= i < allowed.len() && (#[trigger] allowed[i])@ == name
}

/// Whether every supplied parameter name is in the allow-list.
pub open spec fn all_allowed(allowed: Seq<&str>, params: Seq<(String, String)>) -> bool {
    forall|i: int| 0 <= i < params.len() ==> allows(allowed, (#[trigger] params[i]).0@)
}

/// Whether `i` is the position of the first supplied parameter that the
/// allow-list does not hold.
pub open spec fn first_rejected(allowed: Seq<&str>, params: Seq<(String, String)>, i: int) -> bool {
    &&& 0 <= i < params.len()
    &&& !allows(allowed, params[i].0@)
    &&& forall|k: int| 0 <= k < i ==> allows(allowed, (#[trigger] params[k]).0@)
}

/// The set of names of an allow-list.
pub open spec fn allowed_set(allowed: Seq<&str>) -> Set<Seq<char>> {
    Set::new(|n: Seq<char>| allows(allowed, n))
}

/// The set of names of supplied parameters.
pub open spec fn param_names(params: Seq<(String, String)>) -> Set<Seq<char>> {
    Set::new(|n: Seq<char>| exists|i: int| 0 <= i < params.len() && (#[trigger] params[i]).0@ == n)
}

/// Whether `name` is in the allow-list.
pub fn is_allowed(allowed: &[&str], name: &str) -> (r: bool)
    ensures
        r == allows(allowed@, name@),
{
    let mut i: usize = 0;
    while i < allowed.len()
        invariant
            i <= allowed@.len(),
            forall|k: int| 0 <= k < i ==> (#[trigger] allowed@[k])@ != name@,
        decreases allowed.len() - i,
    {
        if str_eq(allowed[i], name) {
            return true;
        }
        i = i + 1;
    }
    false
}

/// Checks the supplied parameters against the allow-list, in order, and stops
/// at the first name that is not in it, which is reported with its value.
pub fn validate_query_params(allowed: &[&str], params: &[(String, String)]) -> (r: Result<
    (),
    ClientError,
>)
    ensures
        match r {
            Ok(_) => all_allowed(allowed@, params@),
            Err(ClientError::InvalidQueryParam { name, value }) => exists|i: int|
                first_rejected(allowed@, params@, i) && name == (#[trigger] params@[i]).0 && value
                    == params@[i].1,
            Err(_) => false,
        },
{
    let mut i: usize = 0;
    while i < params.len()
        invariant
            i <= params@.len(),
            forall|k: int| 0 <= k < i ==> allows(allowed@, (#[trigger] params@[k]).0@),
        decreases params.len() - i,
    {
        if !is_allowed(allowed, params[i].0.as_str()) {
            let name = params[i].0.clone();
            let value = params[i].1.clone();
            assert(first_rejected(allowed@, params@, i as int));
            return Err(ClientError::InvalidQueryParam { name, value });
        }
        i = i + 1;
    }
    Ok(())
}

/// The position of the member of `s` with key `k`, when keys are unique.
pub open spec fn key_index(s: Seq<(String, String)>, k: Seq<char>) -> int {
    choose|i: int| 0 <= i < s.len() && (#[trigger] s[i]).0@ == k
}

/// Query parameters: name and value pairs in insertion order, each name
/// at most once.
#[derive(Debug, PartialEq)]
pub struct QueryParams {
    pairs: Vec<(String, String)>,
}

impl View for QueryParams {
    type V = Seq<(String, String)>;

    closed spec fn view(&self) -> Seq<(String, String)> {
        self.pairs@
    }
}

impl Clone for QueryParams {
    fn clone(&self) -> (r: Self)
        ensures
            r@ == self@,
    {
        proof {
            use_type_invariant(self);
        }
        let mut pairs: Vec<(String, String)> = Vec::new();
        let mut i: usize = 0;
        while i < self.pairs.len()
            invariant
                i <= self.pairs@.len(),
                unique_keys(self.pairs@),
                pairs@ == self.pairs@.subrange(0, i as int),
            decreases self.pairs.len() - i,
        {
            pairs.push((self.pairs[i].0.clone(), self.pairs[i].1.clone()));
            i = i + 1;
            assert(pairs@ =~= self.pairs@.subrange(0, i as int));
        }
        assert(pairs@ =~= self.pairs@);
        QueryParams { pairs }
    }
}

/// The position of the pair named `key`, if any.
fn position_of(pairs: &Vec<(String, String)>, key: &str) -> (r: Option<usize>)
    ensures
        match r {
            Some(i) => i < pairs@.len() && pairs@[i as int].0@ == key@,
            None => !has_key(pairs@, key@),
        },
{
    let mut i: usize = 0;
    while i < pairs.len()
        invariant
            i <= pairs@.len(),
            forall|k: int| 0 <= k < i ==> (#[trigger] pairs@[k]).0@ != key@,
        decreases pairs.len() - i,
    {
        if str_eq(pairs[i].0.as_str(), key) {
            return Some(i);
        }
        i = i + 1;
    }
    None
}

impl QueryParams {
    #[verifier::type_invariant]
    spec fn names_unique(self) -> bool {
        unique_keys(self.pairs@)
    }

    /// No parameters.
    pub fn new() -> (r: Self)
        ensures
            r@.len() == 0,
    {
        QueryParams { pairs: Vec::new() }
    }

    /// The pairs in insertion order; no name occurs twice.
    pub fn pairs(&self) -> (r: &[(String, String)])
        ensures
            r@ == self@,
            unique_keys(self@),
    {
        proof {
            use_type_invariant(self);
        }
        self.pairs.as_slice()
    }

    /// Sets the parameter `name` to `value`: an existing pair keeps its name
    /// and place and takes the new value; otherwise the pair is added last.
    pub fn insert(&mut self, name: String, value: String)
        ensures
            unique_keys(final(self)@),
            if has_key(old(self)@, name@) {
                let i = key_index(old(self)@, name@);
                final(self)@ == old(self)@.update(i, (old(self)@[i].0, value))
            } else {
                final(self)@ == old(self)@.push((name, value))
            },
    {
        proof {
            use_type_invariant(&*self);
        }
        let mut pairs: Vec<(String, String)> = Vec::new();
        std::mem::swap(&mut pairs, &mut self.pairs);
        let ghost before = pairs@;
        match position_of(&pairs, name.as_str()) {
            Some(i) => {
                proof {
                    let j = key_index(before, name@);
                    assert(has_key(before, name@));
                    if j != i as int {
                        if j < i {
                            assert(before[j].0@ != before[i as int].0@);
                        } else {
                            assert(before[i as int].0@ != before[j].0@);
                        }
                    }
                }
                let key = pairs[i].0.clone();
                pairs.set(i, (key, value));
                assert forall|a: int, b: int| 0 <= a < b < pairs@.len() implies (
                #[trigger] pairs@[a]).0@ != (#[trigger] pairs@[b]).0@ by {
                    assert(before[a].0@ != before[b].0@);
                }
            },
            None => {
                pairs.push((name, value));
                assert forall|a: int, b: int| 0 <= a < b < pairs@.len() implies (
                #[trigger] pairs@[a]).0@ != (#[trigger] pairs@[b]).0@ by {
                    if b == pairs@.len() - 1 {
                        assert(before[a] == pairs@[a]);
                        if pairs@[a].0@ == pairs@[b].0@ {
                            assert(has_key(before, name@));
                        }
                    } else {
                        assert(before[a].0@ != before[b].0@);
                    }
                }
            },
        }
        self.pairs = pairs;
    }
}

/// Validation accepts exactly the parameter sets whose names all lie in the
/// allow-list, and a rejected pair is one of the supplied pairs whose name
/// lies outside it.
pub proof fn lemma_accepts_iff_subset(allowed: Seq<&str>, params: Seq<(String, String)>)
    ensures
        all_allowed(allowed, params) <==> param_names(params).subset_of(allowed_set(allowed)),
        forall|i: int|
            first_rejected(allowed, params, i) ==> param_names(params).contains(
                (#[trigger] params[i]).0@,
            ) && !allowed_set(allowed).contains(params[i].0@),
{
    if all_allowed(allowed, params) {
        assert forall|n: Seq<char>| param_names(params).contains(n) implies allowed_set(
            allowed,
        ).contains(n) by {
            let i = choose|i: int| 0 <= i < params.len() && (#[trigger] params[i]).0@ == n;
            assert(allows(allowed, params[i].0@));
        }
    }
    if param_names(params).subset_of(allowed_set(allowed)) {
        assert forall|i: int| 0 <= i < params.len() implies allows(
            allowed,
            (#[trigger] params[i]).0@,
        ) by {
            assert(param_names(params).contains(params[i].0@));
        }
    }
    assert forall|i: int| first_rejected(allowed, params, i) implies param_names(params).contains(
        (#[trigger] params[i]).0@,
    ) && !allowed_set(allowed).contains(params[i].0@) by {
        assert(param_names(params).contains(params[i].0@));
    }
}

/// An empty allow-list accepts the empty parameter set and rejects every
/// other.
pub proof fn lemma_empty_allow_list(allowed: Seq<&str>, params: Seq<(String, String)>)
    requires
        allowed.len() == 0,
    ensures
        all_allowed(allowed, params) <==> params.len() == 0,
{
    if params.len() > 0 {
        assert(!allows(allowed, params[0].0@));
    }
}

} // verus!
