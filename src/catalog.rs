use vstd::prelude::*;

verus! {

/// One tracked asset: its symbol, its reference-market ticker and the id of
/// its venue pool.
#[derive(Clone, Debug)]
pub struct AssetTarget {
    pub symbol: String,
    pub reference_ticker: String,
    pub venue_pool_id: String,
}

impl View for AssetTarget {
    type V = (Seq<char>, Seq<char>, Seq<char>);

    open spec fn view(&self) -> Self::V {
        (self.symbol@, self.reference_ticker@, self.venue_pool_id@)
    }
}

fn target(symbol: &str, reference_ticker: &str, venue_pool_id: &str) -> (r: AssetTarget)
    ensures
        r@ == (symbol@, reference_ticker@, venue_pool_id@),
{
    AssetTarget {
        symbol: String::from_str(symbol),
        reference_ticker: String::from_str(reference_ticker),
        venue_pool_id: String::from_str(venue_pool_id),
    }
}

/// The tracked assets, in scanning order.
pub open spec fn catalog() -> Seq<(Seq<char>, Seq<char>, Seq<char>)> {
    seq![
        ("ETH"@, "ETHUSDT"@, "0x88e6a0c2ddd26feeb64f039a2c41296fcb3f5640"@),
        ("BTC"@, "BTCUSDT"@, "0x99ac8ca7087fa4a2a1fb635c111ca1e12ddbc512"@),
        ("LINK"@, "LINKUSDT"@, "0xa6cc3c2531fda946a23ef4bccd70ac2c6612b9ae"@),
        ("UNI"@, "UNIUSDT"@, "0xd0fc8ba7e267f2bcad7446cd67f44052633c2efd"@),
        ("MATIC"@, "MATICUSDT"@, "0xa374094527e1673a86de625aa59517c5de346d32"@),
        ("AAVE"@, "AAVEUSDT"@, "0x5ab53ee1d50eef2c1dd3d5402789cd27bb52c1bb"@),
        ("CRV"@, "CRVUSDT"@, "0x4e68ccd3e89f51c3074ca5072bbac773960dfa36"@),
        ("PEPE"@, "PEPEUSDT"@, "0x11950d141ecb863f01007add7d1a342041227b58"@),
        ("SHIB"@, "SHIBUSDT"@, "0x2f62f2b4c5fcd7570a709dec05d68ea19c7a08ec"@),
        ("ARB"@, "ARBUSDT"@, "0xc31e54c7a869b9fcbecc14363cf510d1c41fa443"@),
    ]
}

/// Builds the catalog of tracked assets.
pub fn get_trading_pairs() -> (r: Vec<AssetTarget>)
    ensures
        r@.len() == catalog().len(),
        forall|i: int| 0 <= i < r@.len() ==> #[trigger] r@[i]@ == catalog()[i],
{
    let mut v: Vec<AssetTarget> = Vec::new();
    v.push(target("ETH", "ETHUSDT", "0x88e6a0c2ddd26feeb64f039a2c41296fcb3f5640"));
    v.push(target("BTC", "BTCUSDT", "0x99ac8ca7087fa4a2a1fb635c111ca1e12ddbc512"));
    v.push(target("LINK", "LINKUSDT", "0xa6cc3c2531fda946a23ef4bccd70ac2c6612b9ae"));
    v.push(target("UNI", "UNIUSDT", "0xd0fc8ba7e267f2bcad7446cd67f44052633c2efd"));
    v.push(target("MATIC", "MATICUSDT", "0xa374094527e1673a86de625aa59517c5de346d32"));
    v.push(target("AAVE", "AAVEUSDT", "0x5ab53ee1d50eef2c1dd3d5402789cd27bb52c1bb"));
    v.push(target("CRV", "CRVUSDT", "0x4e68ccd3e89f51c3074ca5072bbac773960dfa36"));
    v.push(target("PEPE", "PEPEUSDT", "0x11950d141ecb863f01007add7d1a342041227b58"));
    v.push(target("SHIB", "SHIBUSDT", "0x2f62f2b4c5fcd7570a709dec05d68ea19c7a08ec"));
    v.push(target("ARB", "ARBUSDT", "0xc31e54c7a869b9fcbecc14363cf510d1c41fa443"));
    v
}

/// The position after `c` in a cycle of `len` positions.
pub open spec fn next_position(c: nat, len: nat) -> nat {
    if c + 1 < len {
        c + 1
    } else {
        0
    }
}

/// Where a cursor at `c` stands after `n` steps.
pub open spec fn position_after(c: nat, len: nat, n: nat) -> nat
    decreases n,
{
    if n == 0 {
        c
    } else {
        position_after(next_position(c, len), len, (n - 1) as nat)
    }
}

/// How many of `n` consecutive steps from `c` pick position `k`.
pub open spec fn visits(c: nat, len: nat, n: nat, k: nat) -> nat
    decreases n,
{
    if n == 0 {
        0
    } else {
        (if c == k {
            1nat
        } else {
            0nat
        }) + visits(next_position(c, len), len, (n - 1) as nat, k)
    }
}

proof fn lemma_visits_split(c: nat, len: nat, a: nat, b: nat, k: nat)
    ensures
        visits(c, len, a + b, k) == visits(c, len, a, k) + visits(
            position_after(c, len, a),
            len,
            b,
            k,
        ),
        position_after(c, len, a + b) == position_after(position_after(c, len, a), len, b),
    decreases a,
{
    if a > 0 {
        lemma_visits_split(next_position(c, len), len, (a - 1) as nat, b, k);
        assert((a + b - 1) as nat == (a - 1) as nat + b);
    }
}

/// From `c`, the steps that do not wrap visit `c`, `c + 1`, ... once each.
proof fn lemma_visits_run(c: nat, len: nat, n: nat, k: nat)
    requires
        c + n <= len,
    ensures
        visits(c, len, n, k) == (if c <= k < c + n {
            1nat
        } else {
            0nat
        }),
        position_after(c, len, n) == (if c + n < len {
            c + n
        } else if n == 0 {
            c
        } else {
            0
        }),
    decreases n,
{
    if n > 0 {
        if c + 1 < len {
            lemma_visits_run(c + 1, len, (n - 1) as nat, k);
        } else {
            assert(n == 1);
            assert(next_position(c, len) == 0);
            assert(visits(0, len, 0, k) == 0);
            assert(position_after(0, len, 0) == 0);
        }
    }
}

proof fn lemma_visits_cycle(c: nat, len: nat, k: nat)
    requires
        c < len,
        k < len,
    ensures
        visits(c, len, len, k) == 1,
        position_after(c, len, len) == c,
{
    let a = (len - c) as nat;
    lemma_visits_split(c, len, a, c, k);
    lemma_visits_run(c, len, a, k);
    lemma_visits_run(0, len, c, k);
}

/// Round-robin fairness: a cursor over `len` positions, started anywhere,
/// picks every position exactly `q` times over `q * len` consecutive steps.
pub proof fn lemma_round_robin_fair(c: nat, len: nat, q: nat, k: nat)
    requires
        c < len,
        k < len,
    ensures
        visits(c, len, q * len, k) == q,
        position_after(c, len, q * len) == c,
    decreases q,
{
    if q > 0 {
        let p = (q - 1) as nat;
        let m = p * len;
        assert(m + len == q * len) by (nonlinear_arith)
            requires
                p + 1 == q,
                m == p * len,
        ;
        lemma_round_robin_fair(c, len, p, k);
        lemma_visits_split(c, len, m, len, k);
        lemma_visits_cycle(c, len, k);
    } else {
        assert(q * len == 0) by (nonlinear_arith)
            requires
                q == 0,
        ;
    }
}

/// How many entries of `cs` are `k`.
pub open spec fn occurrences(cs: Seq<nat>, k: nat) -> nat
    decreases cs.len(),
{
    if cs.len() == 0 {
        0
    } else {
        (if cs[0] == k {
            1nat
        } else {
            0nat
        }) + occurrences(cs.drop_first(), k)
    }
}

/// Each position in `cs` follows the one before it in a cycle of `len`.
pub open spec fn is_walk(cs: Seq<nat>, len: nat) -> bool {
    forall|i: int| 0 <= i < cs.len() - 1 ==> #[trigger] cs[i + 1] == next_position(cs[i], len)
}

proof fn lemma_walk_visits(cs: Seq<nat>, len: nat, k: nat)
    requires
        cs.len() > 0,
        is_walk(cs, len),
    ensures
        occurrences(cs, k) == visits(cs[0], len, cs.len(), k),
    decreases cs.len(),
{
    if cs.len() == 1 {
        assert(occurrences(cs.drop_first(), k) == 0);
        assert(visits(next_position(cs[0], len), len, 0, k) == 0);
    } else {
        let rest = cs.drop_first();
        assert forall|i: int| 0 <= i < rest.len() - 1 implies #[trigger] rest[i + 1] == next_position(
            rest[i],
            len,
        ) by {
            assert(cs[(i + 1) + 1] == next_position(cs[i + 1], len));
        }
        assert(cs[0int + 1] == next_position(cs[0], len));
        lemma_walk_visits(rest, len, k);
    }
}

/// Round-robin fairness for any run of consecutive picks: when each pick
/// is the position after the one before, `q * len` picks hold every
/// position exactly `q` times.
pub proof fn lemma_walk_fair(cs: Seq<nat>, len: nat, q: nat, k: nat)
    requires
        cs.len() == q * len,
        q > 0,
        cs[0] < len,
        k < len,
        is_walk(cs, len),
    ensures
        occurrences(cs, k) == q,
{
    assert(cs.len() > 0) by (nonlinear_arith)
        requires
            cs.len() == q * len,
            q > 0,
            k < len,
    ;
    lemma_walk_visits(cs, len, k);
    lemma_round_robin_fair(cs[0], len, q, k);
}

/// A cursor that walks positions `0 .. len` in order and wraps around.
pub struct RoundRobin {
    cursor: usize,
    len: usize,
}

impl RoundRobin {
    pub open spec fn wf(&self) -> bool {
        self.position() < self.size()
    }

    pub closed spec fn position(&self) -> nat {
        self.cursor as nat
    }

    pub closed spec fn size(&self) -> nat {
        self.len as nat
    }

    /// A cursor over `len` positions, at the first.
    pub fn new(len: usize) -> (r: RoundRobin)
        requires
            len > 0,
        ensures
            r.wf(),
            r.position() == 0,
            r.size() == len,
    {
        RoundRobin { cursor: 0, len }
    }

    /// Returns the current position and moves to the next, wrapping to the
    /// first after the last.
    pub fn next(&mut self) -> (r: usize)
        requires
            old(self).wf(),
        ensures
            final(self).wf(),
            r == old(self).position(),
            r < old(self).size(),
            final(self).size() == old(self).size(),
            final(self).position() == next_position(old(self).position(), old(self).size()),
    {
        let r = self.cursor;
        self.cursor = if self.cursor + 1 < self.len {
            self.cursor + 1
        } else {
            0
        };
        r
    }

    pub fn current(&self) -> (r: usize)
        requires
            self.wf(),
        ensures
            r == self.position(),
    {
        self.cursor
    }

    pub fn len(&self) -> (r: usize)
        ensures
            r == self.size(),
    {
        self.len
    }
}

} // verus!
