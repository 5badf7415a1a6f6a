//! The account list: one string of account tokens separated by `&`, each
//! token run as its own account, numbered from one in list order.

use vstd::prelude::*;

verus! {

/// `s` cut at every `&`, empty tokens kept: one token more than there are
/// separators.
pub open spec fn split_tokens_of(s: Seq<char>) -> Seq<Seq<char>>
    decreases s.len(),
{
    if s.len() == 0 {
        seq![Seq::empty()]
    } else {
        let p = split_tokens_of(s.drop_last());
        if s.last() == '&' {
            p.push(Seq::empty())
        } else {
            p.drop_last().push(p.last().push(s.last()))
        }
    }
}

proof fn lemma_split_nonempty(s: Seq<char>)
    ensures
        split_tokens_of(s).len() >= 1,
    decreases s.len(),
{
    if s.len() > 0 {
        lemma_split_nonempty(s.drop_last());
    }
}

/// One account to run: its place in the list, from one, and its token.
pub struct AccountPlan {
    pub idx: usize,
    pub token: String,
}

/// Cuts the account list at every `&`, keeping empty tokens.
pub fn split_tokens(config: &str) -> (r: Vec<String>)
    ensures
        r@.map_values(|t: String| t@) == split_tokens_of(config@),
{
    let n = config.unicode_len();
    let mut pieces: Vec<String> = Vec::new();
    let mut start: usize = 0;
    let mut i: usize = 0;
    proof {
        assert(config@.subrange(0, 0) =~= Seq::<char>::empty());
        assert(pieces@.map_values(|t: String| t@) =~= Seq::<Seq<char>>::empty());
    }
    while i < n
        invariant
            n == config@.len(),
            start <= i <= n,
            pieces@.map_values(|t: String| t@).push(config@.subrange(start as int, i as int))
                == split_tokens_of(config@.subrange(0, i as int)),
        decreases n - i,
    {
        let ghost prefix = config@.subrange(0, i + 1);
        proof {
            assert(prefix.drop_last() =~= config@.subrange(0, i as int));
            lemma_split_nonempty(prefix.drop_last());
        }
        if config.get_char(i) == '&' {
            let piece = config.substring_char(start, i).to_owned();
            let ghost before = pieces@.map_values(|t: String| t@);
            pieces.push(piece);
            proof {
                let after = pieces@.map_values(|t: String| t@);
                assert(after =~= before.push(config@.subrange(start as int, i as int)));
                assert(config@.subrange(i + 1, i + 1) =~= Seq::<char>::empty());
            }
            start = i + 1;
        } else {
            proof {
                assert(config@.subrange(start as int, i + 1) =~= config@.subrange(start as int, i as int).push(config@[i as int]));
                let before = pieces@.map_values(|t: String| t@);
                let p = before.push(config@.subrange(start as int, i as int));
                assert(p.drop_last() =~= before);
            }
        }
        i = i + 1;
    }
    let piece = config.substring_char(start, n).to_owned();
    let ghost before = pieces@.map_values(|t: String| t@);
    pieces.push(piece);
    proof {
        assert(pieces@.map_values(|t: String| t@) =~= before.push(config@.subrange(start as int, n as int)));
        assert(config@.subrange(0, n as int) =~= config@);
    }
    pieces
}

/// The accounts of the list, in order, numbered from one.
pub fn account_plans(config: &str) -> (r: Vec<AccountPlan>)
    ensures
        r@.len() == split_tokens_of(config@).len(),
        forall|i: int|
            0 <= i < r@.len() ==> (#[trigger] r@[i]).idx == i + 1 && r@[i].token@
                == split_tokens_of(config@)[i],
{
    let tokens = split_tokens(config);
    let ghost p = tokens@.map_values(|t: String| t@);
    let n = tokens.len();
    let mut plans: Vec<AccountPlan> = Vec::new();
    let mut i: usize = 0;
    while i < n
        invariant
            n == tokens@.len(),
            n == p.len(),
            i <= n,
            p == split_tokens_of(config@),
            plans@.len() == i,
            forall|k: int| i <= k < n ==> tokens@[k]@ == p[k],
            forall|k: int| 0 <= k < i ==> (#[trigger] plans@[k]).idx == k + 1 && plans@[k].token@ == p[k],
        decreases n - i,
    {
        let token = tokens[i].clone();
        plans.push(AccountPlan { idx: i + 1, token });
        i = i + 1;
    }
    plans
}

} // verus!
