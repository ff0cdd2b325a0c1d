//! The fee-token registry: entries keyed by optional token identity (the
//! native asset is keyed by no address), each carrying a token kind and a
//! fee amount. Token identities are unique within the set.

use vstd::prelude::*;
use crate::merkle::opt_chars_view;
use crate::feer_types::{opt_str_eq, opt_string_duplicate};
use crate::types::TokenType;

verus! {

/// One registry entry: the token's identity, kind and configured fee.
#[derive(Debug)]
pub struct FeeToken {
    /// No address keys the native asset.
    pub token_addr: Option<String>,
    pub token_type: TokenType,
    pub fee: u128,
}

impl FeeToken {
    pub fn new(token_addr: Option<String>, fee: u128, token_type: TokenType) -> (r: Self)
        ensures
            r.token_addr == token_addr,
            r.fee == fee,
            r.token_type == token_type,
    {
        FeeToken { token_addr, fee, token_type }
    }

    /// An identical entry.
    pub fn duplicate(&self) -> (r: Self)
        ensures
            r == *self,
    {
        FeeToken {
            token_addr: opt_string_duplicate(&self.token_addr),
            token_type: self.token_type,
            fee: self.fee,
        }
    }
}

/// The first entry keyed by the given identity, if any; with unique
/// identities, the only one.
pub open spec fn find_token(tokens: Seq<FeeToken>, addr: Option<Seq<char>>) -> Option<FeeToken>
    decreases tokens.len(),
{
    if tokens.len() == 0 {
        None
    } else if opt_chars_view(tokens.first().token_addr) == addr {
        Some(tokens.first())
    } else {
        find_token(tokens.drop_first(), addr)
    }
}

/// The fee-token registry.
pub struct FeeTokensManager {
    pub tokens: Vec<FeeToken>,
}

impl FeeTokensManager {
    /// Well-formed registry: token identities are pairwise distinct.
    pub open spec fn wf(&self) -> bool {
        forall|i: int, j: int|
            0 <= i < j < self.tokens@.len() ==> opt_chars_view(
                (#[trigger] self.tokens@[i]).token_addr,
            ) != opt_chars_view((#[trigger] self.tokens@[j]).token_addr)
    }

    /// Builds the registry from the optional initial entries, whose
    /// identities must be unique.
    pub fn new(tokens: Option<Vec<FeeToken>>) -> (r: Self)
        requires
            match tokens {
                Some(list) => forall|i: int, j: int|
                    0 <= i < j < list@.len() ==> opt_chars_view(
                        (#[trigger] list@[i]).token_addr,
                    ) != opt_chars_view((#[trigger] list@[j]).token_addr),
                None => true,
            },
        ensures
            r.wf(),
            r.tokens@ == match tokens {
                Some(list) => list@,
                None => Seq::<FeeToken>::empty(),
            },
    {
        match tokens {
            Some(list) => FeeTokensManager { tokens: list },
            None => FeeTokensManager { tokens: Vec::new() },
        }
    }

    /// The entry for the identity, if any.
    pub fn get_fee_token(&self, token_addr: Option<String>) -> (r: Option<FeeToken>)
        ensures
            r == find_token(self.tokens@, opt_chars_view(token_addr)),
    {
        let ghost a: Option<Seq<char>> = opt_chars_view(token_addr);
        let n: usize = self.tokens.len();
        let mut i: usize = 0;
        proof {
            assert(self.tokens@.skip(0) =~= self.tokens@);
        }
        while i < n
            invariant
                self.tokens@.len() == n,
                i <= n,
                a == opt_chars_view(token_addr),
                find_token(self.tokens@, a) == find_token(self.tokens@.skip(i as int), a),
            decreases n - i,
        {
            let entry: &FeeToken = &self.tokens[i];
            proof {
                assert(self.tokens@.skip(i as int).first() == self.tokens@[i as int]);
                assert(self.tokens@.skip(i as int).drop_first() =~= self.tokens@.skip(i + 1));
            }
            if opt_str_eq(&entry.token_addr, &token_addr) {
                let found: FeeToken = entry.duplicate();
                return Some(found);
            }
            i += 1;
        }
        proof {
            assert(self.tokens@.skip(n as int) =~= Seq::<FeeToken>::empty());
        }
        None
    }

    /// Whether an entry for the identity exists.
    pub fn is_exists(&self, token_addr: Option<String>) -> (r: bool)
        ensures
            r == (find_token(self.tokens@, opt_chars_view(token_addr)) is Some),
    {
        self.get_fee_token(token_addr).is_some()
    }

    /// Whether no entry for the identity exists.
    pub fn is_unique(&self, token_addr: Option<String>) -> (r: bool)
        ensures
            r == (find_token(self.tokens@, opt_chars_view(token_addr)) is None),
    {
        self.get_fee_token(token_addr).is_none()
    }

    /// Adds a new entry; refused when the identity is already registered.
    pub fn add_fee_token(&mut self, token: FeeToken) -> (r: bool)
        requires
            old(self).wf(),
        ensures
            final(self).wf(),
            r == (find_token(old(self).tokens@, opt_chars_view(token.token_addr)) is None),
            r ==> final(self).tokens@ == old(self).tokens@.push(token),
            !r ==> final(self).tokens@ == old(self).tokens@,
    {
        let addr: Option<String> = opt_string_duplicate(&token.token_addr);
        if !self.is_unique(addr) {
            return false;
        }
        proof {
            lemma_find_token_none(self.tokens@, opt_chars_view(token.token_addr));
        }
        self.tokens.push(token);
        proof {
            assert(self.tokens@.drop_last() =~= old(self).tokens@);
            assert(forall|j: int|
                0 <= j < old(self).tokens@.len() ==> #[trigger] self.tokens@[j] == old(
                    self,
                ).tokens@[j]);
            assert(self.tokens@.last() == token);
        }
        true
    }

    /// Rewrites the kind and fee of the entry keyed by the given
    /// identity; without such an entry nothing changes. The identity key
    /// of every entry stays as it was.
    pub fn update_fee_token(&mut self, token: FeeToken)
        requires
            old(self).wf(),
        ensures
            final(self).wf(),
            final(self).tokens@.len() == old(self).tokens@.len(),
            forall|j: int|
                0 <= j < old(self).tokens@.len() && opt_chars_view(
                    (#[trigger] old(self).tokens@[j]).token_addr,
                ) != opt_chars_view(token.token_addr) ==> final(self).tokens@[j] == old(
                    self,
                ).tokens@[j],
            forall|j: int|
                0 <= j < old(self).tokens@.len() && opt_chars_view(
                    (#[trigger] old(self).tokens@[j]).token_addr,
                ) == opt_chars_view(token.token_addr) ==> (final(self).tokens@[j]).token_addr
                    == old(self).tokens@[j].token_addr && (final(self).tokens@[j]).token_type
                    == token.token_type && (final(self).tokens@[j]).fee == token.fee,
    {
        let n: usize = self.tokens.len();
        let mut i: usize = 0;
        while i < n
            invariant
                self.wf(),
                self.tokens@.len() == n,
                i <= n,
                forall|j: int|
                    i <= j < n ==> #[trigger] self.tokens@[j] == old(self).tokens@[j],
                forall|j: int|
                    0 <= j < i && opt_chars_view((#[trigger] old(self).tokens@[j]).token_addr)
                        != opt_chars_view(token.token_addr) ==> self.tokens@[j] == old(
                        self,
                    ).tokens@[j],
                forall|j: int|
                    0 <= j < i && opt_chars_view((#[trigger] old(self).tokens@[j]).token_addr)
                        == opt_chars_view(token.token_addr) ==> (self.tokens@[j]).token_addr
                        == old(self).tokens@[j].token_addr && (self.tokens@[j]).token_type
                        == token.token_type && (self.tokens@[j]).fee == token.fee,
                forall|j: int|
                    0 <= j < n ==> opt_chars_view((#[trigger] self.tokens@[j]).token_addr)
                        == opt_chars_view(old(self).tokens@[j].token_addr),
            decreases n - i,
        {
            let ghost prev: Seq<FeeToken> = self.tokens@;
            if opt_str_eq(&self.tokens[i].token_addr, &token.token_addr) {
                let current: FeeToken = self.tokens.remove(i);
                let updated = FeeToken {
                    token_addr: current.token_addr,
                    token_type: token.token_type,
                    fee: token.fee,
                };
                self.tokens.insert(i, updated);
                proof {
                    assert(self.tokens@ =~= prev.update(i as int, self.tokens@[i as int]));
                    assert((self.tokens@[i as int]).token_addr == prev[i as int].token_addr);
                }
            }
            i += 1;
        }
    }

    /// Removes the entry keyed by the given identity, keeping every
    /// other entry in order.
    pub fn remove_fee_token(&mut self, token_addr: Option<String>)
        requires
            old(self).wf(),
        ensures
            final(self).wf(),
            final(self).tokens@ == old(self).tokens@.filter(
                |t: FeeToken| opt_chars_view(t.token_addr) != opt_chars_view(token_addr),
            ),
    {
        let ghost keep = |t: FeeToken| opt_chars_view(t.token_addr) != opt_chars_view(token_addr);
        let n: usize = self.tokens.len();
        let mut out: Vec<FeeToken> = Vec::new();
        let mut i: usize = 0;
        proof {
            reveal(Seq::filter);
            assert(old(self).tokens@.subrange(0, 0) =~= Seq::<FeeToken>::empty());
            assert(Seq::<FeeToken>::empty().filter(keep) =~= Seq::<FeeToken>::empty());
        }
        while i < n
            invariant
                self.tokens@ == old(self).tokens@,
                self.tokens@.len() == n,
                i <= n,
                keep == (|t: FeeToken|
                    opt_chars_view(t.token_addr) != opt_chars_view(token_addr)),
                out@ == old(self).tokens@.subrange(0, i as int).filter(keep),
            decreases n - i,
        {
            let entry: &FeeToken = &self.tokens[i];
            proof {
                reveal(Seq::filter);
                assert(old(self).tokens@.subrange(0, i + 1).drop_last() =~= old(
                    self,
                ).tokens@.subrange(0, i as int));
                assert(old(self).tokens@.subrange(0, i + 1).last() == old(self).tokens@[i as int]);
            }
            if !opt_str_eq(&entry.token_addr, &token_addr) {
                out.push(entry.duplicate());
            }
            i += 1;
        }
        proof {
            assert(old(self).tokens@.subrange(0, n as int) =~= old(self).tokens@);
        }
        self.tokens = out;
        proof {
            lemma_filter_keeps_distinct(old(self).tokens@, keep);
        }
    }

    /// A copy of every entry, in registry order.
    pub fn get_fee_tokens(&self) -> (r: Vec<FeeToken>)
        ensures
            r@ == self.tokens@,
    {
        let n: usize = self.tokens.len();
        let mut out: Vec<FeeToken> = Vec::new();
        let mut i: usize = 0;
        while i < n
            invariant
                self.tokens@.len() == n,
                i <= n,
                out@.len() == i,
                forall|j: int| 0 <= j < i ==> #[trigger] out@[j] == self.tokens@[j],
            decreases n - i,
        {
            out.push(self.tokens[i].duplicate());
            i += 1;
        }
        proof {
            assert(out@ =~= self.tokens@);
        }
        out
    }
}

/// A missed search means no entry holds the identity.
proof fn lemma_find_token_none(tokens: Seq<FeeToken>, addr: Option<Seq<char>>)
    requires
        find_token(tokens, addr) is None,
    ensures
        forall|j: int|
            0 <= j < tokens.len() ==> opt_chars_view((#[trigger] tokens[j]).token_addr) != addr,
    decreases tokens.len(),
{
    if tokens.len() > 0 {
        lemma_find_token_none(tokens.drop_first(), addr);
        assert forall|j: int| 0 <= j < tokens.len() implies opt_chars_view(
            (#[trigger] tokens[j]).token_addr,
        ) != addr by {
            if j > 0 {
                assert(tokens.drop_first()[j - 1] == tokens[j]);
            }
        }
    }
}

/// Every element of a filtered sequence stands somewhere in the
/// sequence it was filtered from.
proof fn lemma_filter_element_from(tokens: Seq<FeeToken>, keep: spec_fn(FeeToken) -> bool, i: int)
    requires
        0 <= i < tokens.filter(keep).len(),
    ensures
        exists|k: int| 0 <= k < tokens.len() && #[trigger] tokens[k] == tokens.filter(keep)[i],
    decreases tokens.len(),
{
    reveal(Seq::filter);
    if tokens.len() > 0 {
        let f = tokens.filter(keep);
        let fd = tokens.drop_last().filter(keep);
        if keep(tokens.last()) {
            assert(f == fd.push(tokens.last()));
            if i == f.len() - 1 {
                assert(tokens[tokens.len() - 1] == f[i]);
            } else {
                lemma_filter_element_from(tokens.drop_last(), keep, i);
                let k = choose|k: int|
                    0 <= k < tokens.drop_last().len() && #[trigger] tokens.drop_last()[k] == fd[i];
                assert(tokens[k] == f[i]);
            }
        } else {
            assert(f == fd);
            lemma_filter_element_from(tokens.drop_last(), keep, i);
            let k = choose|k: int|
                0 <= k < tokens.drop_last().len() && #[trigger] tokens.drop_last()[k] == fd[i];
            assert(tokens[k] == f[i]);
        }
    }
}

/// Filtering keeps identities pairwise distinct.
proof fn lemma_filter_keeps_distinct(tokens: Seq<FeeToken>, keep: spec_fn(FeeToken) -> bool)
    requires
        forall|i: int, j: int|
            0 <= i < j < tokens.len() ==> opt_chars_view((#[trigger] tokens[i]).token_addr)
                != opt_chars_view((#[trigger] tokens[j]).token_addr),
    ensures
        forall|i: int, j: int|
            0 <= i < j < tokens.filter(keep).len() ==> opt_chars_view(
                (#[trigger] tokens.filter(keep)[i]).token_addr,
            ) != opt_chars_view((#[trigger] tokens.filter(keep)[j]).token_addr),
    decreases tokens.len(),
{
    reveal(Seq::filter);
    if tokens.len() > 0 {
        lemma_filter_keeps_distinct(tokens.drop_last(), keep);
        let f = tokens.filter(keep);
        let fd = tokens.drop_last().filter(keep);
        if keep(tokens.last()) {
            assert(f == fd.push(tokens.last()));
            assert forall|i: int, j: int| 0 <= i < j < f.len() implies opt_chars_view(
                (#[trigger] f[i]).token_addr,
            ) != opt_chars_view((#[trigger] f[j]).token_addr) by {
                if j == f.len() - 1 {
                    lemma_filter_element_from(tokens.drop_last(), keep, i);
                    let k = choose|k: int|
                        0 <= k < tokens.drop_last().len() && #[trigger] tokens.drop_last()[k]
                            == fd[i];
                    assert(tokens[k] == f[i]);
                    assert(opt_chars_view(tokens[k].token_addr) != opt_chars_view(
                        tokens.last().token_addr,
                    ));
                } else {
                    assert(f[i] == fd[i] && f[j] == fd[j]);
                }
            }
        } else {
            assert(f == fd);
        }
    }
}

} // verus!
