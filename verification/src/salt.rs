//! The salts: single-use tokens that show that a call comes from the host's
//! own handshake.

use crate::table::Table;
use crate::text::text_of;
use vstd::prelude::*;

verus! {

/// Calls `uuid::Uuid::new_v4` and takes the text of the result: a token
/// drawn at random. Nothing is claimed of it. The call ends the process
/// where the operating system has no random bytes to give.
#[verifier::external_body]
pub(crate) fn fresh_token() -> (token: String) {
    uuid::Uuid::new_v4().to_string()
}

/// The salts that are still good after the page of the window labelled
/// `label` has loaded afresh: all but those that were minted for that
/// window.
pub open spec fn surviving(
    salts: Map<Seq<char>, Option<Seq<char>>>,
    label: Seq<char>,
) -> Map<Seq<char>, Option<Seq<char>>> {
    Map::new(
        |token: Seq<char>| salts.contains_key(token) && salts[token] != Some(label),
        |token: Seq<char>| salts[token],
    )
}

/// The registry of salts. Each salt is good once; some are minted for a
/// window.
#[derive(Debug)]
pub struct Salts {
    minted: Table<Option<String>>,
}

impl View for Salts {
    type V = Map<Seq<char>, Option<Seq<char>>>;

    /// The salts that are good, each with the label of the window that it
    /// was minted for, if any.
    closed spec fn view(&self) -> Map<Seq<char>, Option<Seq<char>>> {
        self.minted@.map_values(|window: Option<String>| text_of(window))
    }
}

impl Salts {
    /// Whether the registry is in order.
    pub closed spec fn wf(&self) -> bool {
        self.minted.wf()
    }

    /// A registry with no salt.
    pub fn new() -> (salts: Salts)
        ensures
            salts.wf(),
            salts@ == Map::<Seq<char>, Option<Seq<char>>>::empty(),
    {
        let salts = Salts { minted: Table::new() };
        assert(salts@ =~= Map::<Seq<char>, Option<Seq<char>>>::empty());
        salts
    }

    /// Makes `token` a good salt, minted for `window` or for none. A token
    /// that is a good salt already is one still, once.
    pub fn register(&mut self, token: String, window: Option<String>)
        requires
            old(self).wf(),
        ensures
            final(self).wf(),
            final(self)@ == old(self)@.insert(token@, text_of(window)),
    {
        self.minted.insert(token, window);
        assert(self@ =~= old(self)@.insert(token@, text_of(window)));
    }

    /// Mints a salt: draws a token at random and makes it a good salt, for
    /// `window` or for none.
    pub fn generate(&mut self, window: Option<String>) -> (token: String)
        requires
            old(self).wf(),
        ensures
            final(self).wf(),
            final(self)@ == old(self)@.insert(token@, text_of(window)),
    {
        let token = fresh_token();
        self.register(token.clone(), window);
        token
    }

    /// Checks a salt and uses it up. A token that is no good salt is
    /// refused, and nothing changes.
    pub fn verify(&mut self, token: &String) -> (good: bool)
        requires
            old(self).wf(),
        ensures
            final(self).wf(),
            good == old(self)@.contains_key(token@),
            final(self)@ == old(self)@.remove(token@),
    {
        let taken = self.minted.remove(token);
        assert(self@ =~= old(self)@.remove(token@));
        taken.is_some()
    }

    /// Whether a token is a good salt. Nothing is used up.
    pub fn is_good(&self, token: &String) -> (good: bool)
        requires
            self.wf(),
        ensures
            good == self@.contains_key(token@),
    {
        self.minted.contains_key(token)
    }

    /// Makes the salts that were minted for the window labelled `label` no
    /// good: its page has loaded afresh.
    pub fn invalidate(&mut self, label: &String)
        requires
            old(self).wf(),
        ensures
            final(self).wf(),
            final(self)@ == surviving(old(self)@, label@),
    {
        let mut left: Table<Option<String>> = Table::new();
        let count = self.minted.len();
        let mut at: usize = 0;
        proof {
            self.minted.lemma_entries();
        }
        while at < count
            invariant
                at <= count,
                count == self.minted.keys().len(),
                *self == *old(self),
                self.minted.wf(),
                left.wf(),
                forall|token: Seq<char>| #[trigger]
                    left@.contains_key(token) <==> exists|i: int|
                        0 <= i < at && #[trigger] self.minted.keys()[i] == token && text_of(
                            self.minted.values()[i],
                        ) != Some(label@),
                forall|token: Seq<char>| #[trigger]
                    left@.contains_key(token) ==> left@[token] == self.minted@[token],
            decreases count - at,
        {
            proof {
                self.minted.lemma_entries();
            }
            let ghost before = left@;
            let window = self.minted.value(at);
            let stale = match window {
                Some(scope) => *scope == *label,
                None => false,
            };
            if !stale {
                let window = match window {
                    Some(scope) => Some(scope.clone()),
                    None => None,
                };
                left.insert(self.minted.key(at).clone(), window);
            }
            proof {
                let key = self.minted.keys()[at as int];
                assert forall|token: Seq<char>| #[trigger] left@.contains_key(token) implies exists|
                    i: int,
                |
                    0 <= i < at + 1 && #[trigger] self.minted.keys()[i] == token && text_of(
                        self.minted.values()[i],
                    ) != Some(label@) by {
                    if token == key && !stale {
                        assert(self.minted.keys()[at as int] == token);
                    } else {
                        assert(before.contains_key(token));
                        let i = choose|i: int|
                            0 <= i < at && #[trigger] self.minted.keys()[i] == token && text_of(
                                self.minted.values()[i],
                            ) != Some(label@);
                        assert(self.minted.keys()[i] == token);
                    }
                }
                assert forall|token: Seq<char>|
                    (exists|i: int|
                        0 <= i < at + 1 && #[trigger] self.minted.keys()[i] == token && text_of(
                            self.minted.values()[i],
                        ) != Some(label@)) implies #[trigger] left@.contains_key(token) by {
                    let i = choose|i: int|
                        0 <= i < at + 1 && #[trigger] self.minted.keys()[i] == token && text_of(
                            self.minted.values()[i],
                        ) != Some(label@);
                    if i < at {
                        assert(before.contains_key(token));
                    }
                }
            }
            at = at + 1;
        }
        proof {
            self.minted.lemma_entries();
            left.lemma_entries();
            let kept = left@.map_values(|window: Option<String>| text_of(window));
            assert(kept =~= surviving(old(self)@, label@)) by {
                assert forall|token: Seq<char>| #[trigger]
                    surviving(old(self)@, label@).contains_key(token) implies kept.contains_key(
                    token,
                ) by {
                    assert(self.minted@.contains_key(token));
                    let i = self.minted.keys().index_of(token);
                    assert(self.minted.keys().contains(token));
                    assert(self.minted.keys()[i] == token);
                }
                assert forall|token: Seq<char>| #[trigger]
                    kept.contains_key(token) implies surviving(old(self)@, label@).contains_key(
                    token,
                ) && kept[token] == surviving(old(self)@, label@)[token] by {
                    assert(left@.contains_key(token));
                    let i = choose|i: int|
                        0 <= i < at && #[trigger] self.minted.keys()[i] == token && text_of(
                            self.minted.values()[i],
                        ) != Some(label@);
                    assert(self.minted@.contains_key(self.minted.keys()[i]));
                }
            }
        }
        self.minted = left;
    }
}

/// A salt that was minted is good exactly once. The first
/// check of it succeeds and uses it up; every later check fails, and
/// changes nothing.
pub proof fn lemma_salt_single_use(
    salts: Map<Seq<char>, Option<Seq<char>>>,
    token: Seq<char>,
    window: Option<Seq<char>>,
)
    ensures
        salts.insert(token, window).contains_key(token),
        !salts.insert(token, window).remove(token).contains_key(token),
        salts.insert(token, window).remove(token).remove(token) == salts.insert(
            token,
            window,
        ).remove(token),
{
    assert(salts.insert(token, window).remove(token).remove(token) =~= salts.insert(
        token,
        window,
    ).remove(token));
}

/// A token that no one minted is refused: checking it fails and leaves every
/// good salt good.
pub proof fn lemma_unknown_salt_refused(salts: Map<Seq<char>, Option<Seq<char>>>, token: Seq<char>)
    requires
        !salts.contains_key(token),
    ensures
        salts.remove(token) == salts,
{
    assert(salts.remove(token) =~= salts);
}

/// A salt of a window does not outlive the page that it was given to: once
/// the page of the window has loaded afresh, the salt is refused. The salts
/// of other windows, and those minted for no window, stay good.
pub proof fn lemma_navigation_invalidates(
    salts: Map<Seq<char>, Option<Seq<char>>>,
    label: Seq<char>,
    token: Seq<char>,
)
    requires
        salts.contains_key(token),
    ensures
        salts[token] == Some(label) ==> !surviving(salts, label).contains_key(token),
        salts[token] != Some(label) ==> surviving(salts, label).contains_key(token) && surviving(
            salts,
            label,
        )[token] == salts[token],
{
}

} // verus!
