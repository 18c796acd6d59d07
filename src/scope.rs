use vstd::prelude::*;

use crate::errors::Error;

verus! {

/// A named permission that an access token is authorized for.
#[derive(Clone, Copy, Debug, PartialEq, Eq, Structural)]
pub enum Scope {
    Payments,
    TransactionsHistory,
    UserAppSettings,
    UserProfileReadonly,
    UserProfile,
    UserSubaccounts,
    UserPayoutSettings,
    Balance,
    Products,
}

/// The wire form of a scope: a single token without whitespace.
pub open spec fn wire(s: Scope) -> Seq<char> {
    match s {
        Scope::Payments => "payments"@,
        Scope::TransactionsHistory => "transactions.history"@,
        Scope::UserAppSettings => "user.app-settings"@,
        Scope::UserProfileReadonly => "user.profile_readonly"@,
        Scope::UserProfile => "user.profile"@,
        Scope::UserSubaccounts => "user.subaccounts"@,
        Scope::UserPayoutSettings => "user.payout-settings"@,
        Scope::Balance => "balance"@,
        Scope::Products => "products"@,
    }
}

/// The scope whose wire form is `t`, if any.
pub open spec fn scope_of_wire(t: Seq<char>) -> Option<Scope> {
    if t == "payments"@ {
        Some(Scope::Payments)
    } else if t == "transactions.history"@ {
        Some(Scope::TransactionsHistory)
    } else if t == "user.app-settings"@ {
        Some(Scope::UserAppSettings)
    } else if t == "user.profile_readonly"@ {
        Some(Scope::UserProfileReadonly)
    } else if t == "user.profile"@ {
        Some(Scope::UserProfile)
    } else if t == "user.subaccounts"@ {
        Some(Scope::UserSubaccounts)
    } else if t == "user.payout-settings"@ {
        Some(Scope::UserPayoutSettings)
    } else if t == "balance"@ {
        Some(Scope::Balance)
    } else if t == "products"@ {
        Some(Scope::Products)
    } else {
        None
    }
}

/// The scopes' wire forms joined by single spaces; no scopes give the empty string.
pub open spec fn join_wire(ss: Seq<Scope>) -> Seq<char>
    decreases ss.len(),
{
    if ss.len() == 0 {
        Seq::empty()
    } else if ss.len() == 1 {
        wire(ss[0])
    } else {
        join_wire(ss.drop_last()) + seq![' '] + wire(ss.last())
    }
}

/// The pieces of `s` between single spaces, as `str::split(' ')` gives them.
pub open spec fn split_spaces(s: Seq<char>) -> Seq<Seq<char>>
    decreases s.len(),
{
    if s.len() == 0 {
        seq![Seq::empty()]
    } else {
        let rest = split_spaces(s.drop_last());
        if s.last() == ' ' {
            rest.push(Seq::empty())
        } else {
            rest.update(rest.len() - 1, rest.last().push(s.last()))
        }
    }
}

/// Each token read as a scope, in order; the first token that is no scope is the error.
pub open spec fn parse_tokens(ts: Seq<Seq<char>>) -> Result<Seq<Scope>, Seq<char>>
    decreases ts.len(),
{
    if ts.len() == 0 {
        Ok(Seq::empty())
    } else {
        match parse_tokens(ts.drop_last()) {
            Err(t) => Err(t),
            Ok(ss) => match scope_of_wire(ts.last()) {
                Some(sc) => Ok(ss.push(sc)),
                None => Err(ts.last()),
            },
        }
    }
}

/// What a space-separated scope string denotes: the empty string is no scopes.
pub open spec fn parse_scopes(s: Seq<char>) -> Result<Seq<Scope>, Seq<char>> {
    if s.len() == 0 {
        Ok(Seq::empty())
    } else {
        parse_tokens(split_spaces(s))
    }
}

pub proof fn lemma_wire_facts(s: Scope)
    ensures
        scope_of_wire(wire(s)) == Some(s),
        wire(s).len() > 0,
        !wire(s).contains(' '),
{
    reveal_strlit("payments");
    reveal_strlit("transactions.history");
    reveal_strlit("user.app-settings");
    reveal_strlit("user.profile_readonly");
    reveal_strlit("user.profile");
    reveal_strlit("user.subaccounts");
    reveal_strlit("user.payout-settings");
    reveal_strlit("balance");
    reveal_strlit("products");
    match s {
        Scope::Payments => {
        },
        Scope::TransactionsHistory => {
            assert("transactions.history"@.len() != "payments"@.len());
        },
        Scope::UserAppSettings => {
            assert("user.app-settings"@.len() != "payments"@.len());
            assert("user.app-settings"@.len() != "transactions.history"@.len());
        },
        Scope::UserProfileReadonly => {
            assert("user.profile_readonly"@.len() != "payments"@.len());
            assert("user.profile_readonly"@.len() != "transactions.history"@.len());
            assert("user.profile_readonly"@.len() != "user.app-settings"@.len());
        },
        Scope::UserProfile => {
            assert("user.profile"@.len() != "payments"@.len());
            assert("user.profile"@.len() != "transactions.history"@.len());
            assert("user.profile"@.len() != "user.app-settings"@.len());
            assert("user.profile"@.len() != "user.profile_readonly"@.len());
        },
        Scope::UserSubaccounts => {
            assert("user.subaccounts"@.len() != "payments"@.len());
            assert("user.subaccounts"@.len() != "transactions.history"@.len());
            assert("user.subaccounts"@.len() != "user.app-settings"@.len());
            assert("user.subaccounts"@.len() != "user.profile_readonly"@.len());
            assert("user.subaccounts"@.len() != "user.profile"@.len());
        },
        Scope::UserPayoutSettings => {
            assert("user.payout-settings"@.len() != "payments"@.len());
            assert("user.payout-settings"@[0] != "transactions.history"@[0]);
            assert("user.payout-settings"@.len() != "user.app-settings"@.len());
            assert("user.payout-settings"@.len() != "user.profile_readonly"@.len());
            assert("user.payout-settings"@.len() != "user.profile"@.len());
            assert("user.payout-settings"@.len() != "user.subaccounts"@.len());
        },
        Scope::Balance => {
            assert("balance"@.len() != "payments"@.len());
            assert("balance"@.len() != "transactions.history"@.len());
            assert("balance"@.len() != "user.app-settings"@.len());
            assert("balance"@.len() != "user.profile_readonly"@.len());
            assert("balance"@.len() != "user.profile"@.len());
            assert("balance"@.len() != "user.subaccounts"@.len());
            assert("balance"@.len() != "user.payout-settings"@.len());
        },
        Scope::Products => {
            assert("products"@[1] != "payments"@[1]);
            assert("products"@.len() != "transactions.history"@.len());
            assert("products"@.len() != "user.app-settings"@.len());
            assert("products"@.len() != "user.profile_readonly"@.len());
            assert("products"@.len() != "user.profile"@.len());
            assert("products"@.len() != "user.subaccounts"@.len());
            assert("products"@.len() != "user.payout-settings"@.len());
            assert("products"@.len() != "balance"@.len());
        },
    }
}

proof fn lemma_split_nonempty(s: Seq<char>)
    ensures
        split_spaces(s).len() >= 1,
    decreases s.len(),
{
    if s.len() > 0 {
        lemma_split_nonempty(s.drop_last());
    }
}

/// Appending a space and then a space-free word adds exactly that word as a piece.
proof fn lemma_split_append_word(a: Seq<char>, w: Seq<char>)
    requires
        !w.contains(' '),
    ensures
        split_spaces(a + seq![' '] + w) == split_spaces(a).push(w),
    decreases w.len(),
{
    lemma_split_nonempty(a);
    if w.len() == 0 {
        assert(w =~= Seq::<char>::empty());
        assert(a + seq![' '] + w =~= a + seq![' ']);
        assert((a + seq![' ']).drop_last() =~= a);
        assert((a + seq![' ']).last() == ' ');
        assert(split_spaces(a + seq![' ']) == split_spaces(a).push(Seq::empty()));
    } else {
        let w0 = w.drop_last();
        assert(!w0.contains(' ')) by {
            if w0.contains(' ') {
                let k = choose|k: int| 0 <= k < w0.len() && w0[k] == ' ';
                assert(w[k] == ' ');
            }
        }
        lemma_split_append_word(a, w0);
        assert((a + seq![' '] + w).drop_last() =~= a + seq![' '] + w0);
        assert(w.last() != ' ') by {
            assert(w[w.len() - 1] == w.last());
        }
        assert(w0.push(w.last()) =~= w);
        assert(split_spaces(a).push(w0).update(split_spaces(a).len() as int, w)
            =~= split_spaces(a).push(w));
    }
}

/// A single space-free word is split into just itself.
proof fn lemma_split_word(w: Seq<char>)
    requires
        !w.contains(' '),
    ensures
        split_spaces(w) == seq![w],
    decreases w.len(),
{
    if w.len() > 0 {
        let w0 = w.drop_last();
        assert(!w0.contains(' ')) by {
            if w0.contains(' ') {
                let k = choose|k: int| 0 <= k < w0.len() && w0[k] == ' ';
                assert(w[k] == ' ');
            }
        }
        lemma_split_word(w0);
        assert(w.last() != ' ') by {
            assert(w[w.len() - 1] == w.last());
        }
        assert(w0.push(w.last()) =~= w);
        assert(seq![w0].update(0, w) =~= seq![w]);
    } else {
        assert(w =~= Seq::<char>::empty());
    }
}

/// Splitting the joined wire forms gives back each scope's wire form.
proof fn lemma_split_join(ss: Seq<Scope>)
    requires
        ss.len() > 0,
    ensures
        split_spaces(join_wire(ss)) == ss.map_values(|s: Scope| wire(s)),
    decreases ss.len(),
{
    lemma_wire_facts(ss.last());
    if ss.len() == 1 {
        lemma_split_word(wire(ss[0]));
        assert(ss.map_values(|s: Scope| wire(s)) =~= seq![wire(ss[0])]);
    } else {
        lemma_split_join(ss.drop_last());
        lemma_split_append_word(join_wire(ss.drop_last()), wire(ss.last()));
        assert(ss.map_values(|s: Scope| wire(s)) =~= ss.drop_last().map_values(
            |s: Scope| wire(s),
        ).push(wire(ss.last())));
    }
}

proof fn lemma_parse_wires(ss: Seq<Scope>)
    ensures
        parse_tokens(ss.map_values(|s: Scope| wire(s))) == Ok::<Seq<Scope>, Seq<char>>(ss),
    decreases ss.len(),
{
    if ss.len() > 0 {
        lemma_parse_wires(ss.drop_last());
        lemma_wire_facts(ss.last());
        assert(ss.map_values(|s: Scope| wire(s)).drop_last() =~= ss.drop_last().map_values(
            |s: Scope| wire(s),
        ));
        assert(ss.drop_last().push(ss.last()) =~= ss);
    } else {
        assert(ss.map_values(|s: Scope| wire(s)) =~= Seq::<Seq<char>>::empty());
        assert(ss =~= Seq::<Scope>::empty());
    }
}

/// Serializing scopes and parsing the result gives back the same scopes, in order,
/// duplicates included; no scopes serialize to the empty string.
pub proof fn lemma_scopes_round_trip(ss: Seq<Scope>)
    ensures
        parse_scopes(join_wire(ss)) == Ok::<Seq<Scope>, Seq<char>>(ss),
        ss.len() == 0 <==> join_wire(ss).len() == 0,
{
    if ss.len() == 0 {
        assert(ss =~= Seq::<Scope>::empty());
    } else {
        lemma_join_nonempty(ss);
        lemma_split_join(ss);
        lemma_parse_wires(ss);
    }
}

proof fn lemma_join_nonempty(ss: Seq<Scope>)
    requires
        ss.len() > 0,
    ensures
        join_wire(ss).len() > 0,
    decreases ss.len(),
{
    lemma_wire_facts(ss.last());
    if ss.len() == 1 {
        lemma_wire_facts(ss[0]);
    }
}

/// Once a prefix of the tokens holds a bad token, that token is the error for all of them.
proof fn lemma_parse_err_sticky(ts: Seq<Seq<char>>, k: int)
    requires
        0 <= k <= ts.len(),
        parse_tokens(ts.take(k)) is Err,
    ensures
        parse_tokens(ts) == parse_tokens(ts.take(k)),
    decreases ts.len() - k,
{
    if k < ts.len() {
        assert(ts.take(k + 1).drop_last() =~= ts.take(k));
        lemma_parse_err_sticky(ts, k + 1);
    } else {
        assert(ts.take(k) =~= ts);
    }
}

/// Whether two strings hold the same characters.
pub(crate) fn same_text(a: &str, b: &str) -> (r: bool)
    ensures
        r == (a@ == b@),
{
    let n = a.unicode_len();
    if n != b.unicode_len() {
        return false;
    }
    let mut i: usize = 0;
    while i < n
        invariant
            n == a@.len(),
            n == b@.len(),
            i <= n,
            forall|j: int| 0 <= j < i ==> a@[j] == b@[j],
        decreases n - i,
    {
        if a.get_char(i) != b.get_char(i) {
            return false;
        }
        i += 1;
    }
    assert(a@ =~= b@);
    true
}

impl Scope {
    /// The wire form of this scope.
    pub fn as_str(&self) -> (r: &'static str)
        ensures
            r@ == wire(*self),
    {
        match self {
            Scope::Payments => "payments",
            Scope::TransactionsHistory => "transactions.history",
            Scope::UserAppSettings => "user.app-settings",
            Scope::UserProfileReadonly => "user.profile_readonly",
            Scope::UserProfile => "user.profile",
            Scope::UserSubaccounts => "user.subaccounts",
            Scope::UserPayoutSettings => "user.payout-settings",
            Scope::Balance => "balance",
            Scope::Products => "products",
        }
    }

    /// Reads one wire token; an unknown token is an `InvalidScope` error naming it.
    pub fn from_str(s: &str) -> (r: Result<Scope, Error>)
        ensures
            match r {
                Ok(sc) => scope_of_wire(s@) == Some(sc),
                Err(Error::InvalidScope(t)) => scope_of_wire(s@) is None && t@ == s@,
                Err(_) => false,
            },
    {
        if same_text(s, "payments") {
            Ok(Scope::Payments)
        } else if same_text(s, "transactions.history") {
            Ok(Scope::TransactionsHistory)
        } else if same_text(s, "user.app-settings") {
            Ok(Scope::UserAppSettings)
        } else if same_text(s, "user.profile_readonly") {
            Ok(Scope::UserProfileReadonly)
        } else if same_text(s, "user.profile") {
            Ok(Scope::UserProfile)
        } else if same_text(s, "user.subaccounts") {
            Ok(Scope::UserSubaccounts)
        } else if same_text(s, "user.payout-settings") {
            Ok(Scope::UserPayoutSettings)
        } else if same_text(s, "balance") {
            Ok(Scope::Balance)
        } else if same_text(s, "products") {
            Ok(Scope::Products)
        } else {
            Err(Error::InvalidScope(String::from_str(s)))
        }
    }
}

/// The pieces of `s` between single spaces.
fn split_on_spaces(s: &str) -> (r: Vec<String>)
    ensures
        r@.map_values(|t: String| t@) == split_spaces(s@),
{
    let n = s.unicode_len();
    let mut out: Vec<String> = Vec::new();
    let mut start: usize = 0;
    let mut i: usize = 0;
    assert(s@.take(0) =~= Seq::<char>::empty());
    assert(out@.map_values(|t: String| t@).push(s@.subrange(0, 0)) =~= seq![Seq::<char>::empty()]);
    while i < n
        invariant
            n == s@.len(),
            start <= i <= n,
            out@.map_values(|t: String| t@).push(s@.subrange(start as int, i as int))
                == split_spaces(s@.take(i as int)),
        decreases n - i,
    {
        let ghost prev = out@.map_values(|t: String| t@);
        let c = s.get_char(i);
        assert(s@.take(i + 1).drop_last() =~= s@.take(i as int));
        assert(s@.take(i + 1).last() == c);
        if c == ' ' {
            let t = s.substring_char(start, i);
            out.push(String::from_str(t));
            start = i + 1;
            assert(out@.map_values(|t: String| t@) =~= prev.push(t@));
            assert(s@.subrange(start as int, i + 1) =~= Seq::<char>::empty());
        } else {
            assert(s@.subrange(start as int, i + 1) =~= s@.subrange(start as int, i as int).push(c));
            assert(prev.push(s@.subrange(start as int, i as int)).update(prev.len() as int, s@.subrange(start as int, i + 1))
                =~= prev.push(s@.subrange(start as int, i + 1)));
        }
        i += 1;
    }
    let t = s.substring_char(start, n);
    let ghost prev = out@.map_values(|t: String| t@);
    out.push(String::from_str(t));
    assert(out@.map_values(|t: String| t@) =~= prev.push(t@));
    assert(s@.take(n as int) =~= s@);
    out
}

/// An ordered sequence of scopes; duplicates and order are kept as given.
#[derive(Clone, Debug)]
pub struct Scopes {
    pub scopes: Vec<Scope>,
}

impl View for Scopes {
    type V = Seq<Scope>;

    open spec fn view(&self) -> Seq<Scope> {
        self.scopes@
    }
}

impl Scopes {
    /// No scopes.
    pub fn new() -> (r: Scopes)
        ensures
            r@ == Seq::<Scope>::empty(),
    {
        Scopes { scopes: Vec::new() }
    }

    /// The scopes, in order.
    pub fn as_slice(&self) -> (r: &[Scope])
        ensures
            r@ == self@,
    {
        self.scopes.as_slice()
    }

    /// A copy of these scopes.
    pub fn copied(&self) -> (r: Scopes)
        ensures
            r@ == self@,
    {
        let mut out: Vec<Scope> = Vec::new();
        let mut i: usize = 0;
        while i < self.scopes.len()
            invariant
                i <= self@.len(),
                out@ == self@.take(i as int),
            decreases self@.len() - i,
        {
            out.push(self.scopes[i]);
            i += 1;
            assert(out@ =~= self@.take(i as int));
        }
        assert(self@.take(i as int) =~= self@);
        Scopes { scopes: out }
    }

    /// The number of scopes.
    pub fn len(&self) -> (r: usize)
        ensures
            r == self@.len(),
    {
        self.scopes.len()
    }

    /// The wire forms joined by single spaces; no scopes give the empty string.
    pub fn to_string(&self) -> (r: String)
        ensures
            r@ == join_wire(self@),
    {
        let mut out = String::new();
        let n = self.scopes.len();
        let mut i: usize = 0;
        while i < n
            invariant
                n == self@.len(),
                i <= n,
                out@ == join_wire(self@.take(i as int)),
            decreases n - i,
        {
            let s = self.scopes[i];
            assert(self@.take(i + 1).drop_last() =~= self@.take(i as int));
            if i > 0 {
                out.append(" ");
                proof {
                    reveal_strlit(" ");
                }
            }
            out.append(s.as_str());
            i += 1;
        }
        assert(self@.take(n as int) =~= self@);
        out
    }

    /// Reads a space-separated scope string; the empty string is no scopes, and the
    /// first token that is no scope is an `InvalidScope` error naming it.
    pub fn from_string(s: &str) -> (r: Result<Scopes, Error>)
        ensures
            match r {
                Ok(sc) => parse_scopes(s@) == Ok::<Seq<Scope>, Seq<char>>(sc@),
                Err(Error::InvalidScope(t)) => parse_scopes(s@) == Err::<Seq<Scope>, Seq<char>>(t@),
                Err(_) => false,
            },
    {
        if s.unicode_len() == 0 {
            return Ok(Scopes::new());
        }
        let tokens = split_on_spaces(s);
        let ghost ts = tokens@.map_values(|t: String| t@);
        let mut out: Vec<Scope> = Vec::new();
        let mut i: usize = 0;
        assert(ts.take(0) =~= Seq::<Seq<char>>::empty());
        while i < tokens.len()
            invariant
                ts == tokens@.map_values(|t: String| t@),
                ts == split_spaces(s@),
                s@.len() > 0,
                i <= tokens.len(),
                parse_tokens(ts.take(i as int)) == Ok::<Seq<Scope>, Seq<char>>(out@),
            decreases tokens.len() - i,
        {
            assert(ts.take(i + 1).drop_last() =~= ts.take(i as int));
            assert(ts.take(i + 1).last() == tokens@[i as int]@);
            match Scope::from_str(tokens[i].as_str()) {
                Ok(sc) => {
                    out.push(sc);
                },
                Err(e) => {
                    proof {
                        lemma_parse_err_sticky(ts, i + 1);
                    }
                    return Err(e);
                },
            }
            i += 1;
        }
        assert(ts.take(tokens.len() as int) =~= ts);
        Ok(Scopes { scopes: out })
    }
}

impl From<Vec<Scope>> for Scopes {
    fn from(scopes: Vec<Scope>) -> (r: Scopes) {
        Scopes { scopes }
    }
}

impl vstd::std_specs::convert::FromSpecImpl<Vec<Scope>> for Scopes {
    open spec fn obeys_from_spec() -> bool {
        true
    }

    open spec fn from_spec(v: Vec<Scope>) -> Scopes {
        Scopes { scopes: v }
    }
}

impl PartialEq for Scopes {
    fn eq(&self, other: &Scopes) -> (r: bool) {
        let n = self.scopes.len();
        if n != other.scopes.len() {
            return false;
        }
        let mut i: usize = 0;
        while i < n
            invariant
                n == self@.len(),
                n == other@.len(),
                i <= n,
                forall|j: int| 0 <= j < i ==> self@[j] == other@[j],
            decreases n - i,
        {
            if self.scopes[i] != other.scopes[i] {
                return false;
            }
            i += 1;
        }
        assert(self@ =~= other@);
        true
    }
}

impl vstd::std_specs::cmp::PartialEqSpecImpl for Scopes {
    open spec fn obeys_eq_spec() -> bool {
        true
    }

    open spec fn eq_spec(&self, other: &Scopes) -> bool {
        self@ == other@
    }
}

impl Eq for Scopes {
}

impl Default for Scopes {
    fn default() -> (r: Scopes)
        ensures
            r@ == Seq::<Scope>::empty(),
    {
        Scopes::new()
    }
}

} // verus!
