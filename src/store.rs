use vstd::prelude::*;
use crate::market::Status;

verus! {

/// One classified observation of an asset's cross-market spread. Prices,
/// amounts and the spread percentage are fixed-point.
#[derive(Debug)]
pub struct Opportunity {
    pub id: String,
    pub timestamp: u64,
    pub pair: String,
    pub reference_price: u64,
    pub venue_price: u64,
    pub spread_pct: u64,
    pub capital_used: u64,
    pub gross_profit: i128,
    pub cost_flash_loan: i128,
    pub cost_gas: i128,
    pub cost_dex_fees: i128,
    pub net_profit: i128,
    pub status: Status,
    pub required_capital: Option<u64>,
}

impl Opportunity {
    /// An identical copy of the observation.
    pub fn duplicate(&self) -> (r: Opportunity)
        ensures
            r == *self,
    {
        Opportunity {
            id: self.id.clone(),
            timestamp: self.timestamp,
            pair: self.pair.clone(),
            reference_price: self.reference_price,
            venue_price: self.venue_price,
            spread_pct: self.spread_pct,
            capital_used: self.capital_used,
            gross_profit: self.gross_profit,
            cost_flash_loan: self.cost_flash_loan,
            cost_gas: self.cost_gas,
            cost_dex_fees: self.cost_dex_fees,
            net_profit: self.net_profit,
            status: self.status,
            required_capital: self.required_capital,
        }
    }
}

/// The running totals as mathematical integers.
pub struct Tally {
    pub count: int,
    pub executed: int,
    pub low_profit: int,
    pub unprofitable: int,
    pub profit: int,
    pub missed: int,
    pub biggest: int,
}

pub open spec fn empty_tally() -> Tally {
    Tally {
        count: 0,
        executed: 0,
        low_profit: 0,
        unprofitable: 0,
        profit: 0,
        missed: 0,
        biggest: 0,
    }
}

pub open spec fn abs(x: int) -> int {
    if x < 0 {
        -x
    } else {
        x
    }
}

/// The totals after one more observation with net profit `net`.
pub open spec fn tally_add(t: Tally, net: int, status: Status) -> Tally {
    Tally {
        count: t.count + 1,
        executed: t.executed + if status == Status::Executable {
            1int
        } else {
            0
        },
        low_profit: t.low_profit + if status == Status::LowProfit {
            1int
        } else {
            0
        },
        unprofitable: t.unprofitable + if status == Status::Unprofitable {
            1int
        } else {
            0
        },
        profit: t.profit + if status == Status::Executable {
            net
        } else {
            0
        },
        missed: t.missed + if status == Status::LowProfit {
            abs(net)
        } else {
            0
        },
        biggest: if net > t.biggest {
            net
        } else {
            t.biggest
        },
    }
}

/// The totals after recording a sequence of (net profit, status) pairs in
/// order, from empty.
pub open spec fn tally_of(obs: Seq<(int, Status)>) -> Tally
    decreases obs.len(),
{
    if obs.len() == 0 {
        empty_tally()
    } else {
        tally_add(tally_of(obs.drop_last()), obs.last().0, obs.last().1)
    }
}

/// Number of entries of `obs` with status `s`.
pub open spec fn count_with(obs: Seq<(int, Status)>, s: Status) -> int
    decreases obs.len(),
{
    if obs.len() == 0 {
        0
    } else {
        count_with(obs.drop_last(), s) + if obs.last().1 == s {
            1int
        } else {
            0
        }
    }
}

/// Sum of the net profits of the entries of `obs` with status `s`.
pub open spec fn sum_with(obs: Seq<(int, Status)>, s: Status) -> int
    decreases obs.len(),
{
    if obs.len() == 0 {
        0
    } else {
        sum_with(obs.drop_last(), s) + if obs.last().1 == s {
            obs.last().0
        } else {
            0
        }
    }
}

/// Sum of the absolute net profits of the entries of `obs` with status `s`.
pub open spec fn abs_sum_with(obs: Seq<(int, Status)>, s: Status) -> int
    decreases obs.len(),
{
    if obs.len() == 0 {
        0
    } else {
        abs_sum_with(obs.drop_last(), s) + if obs.last().1 == s {
            abs(obs.last().0)
        } else {
            0
        }
    }
}

/// Aggregate consistency: after any sequence of observations is recorded
/// from empty, the count is the number of observations, each per-status
/// count is the number with that status, the cumulative profit is the sum of
/// the executable net profits, the cumulative missed profit the sum of the
/// absolute net profits of the low-profit ones (so it never decreases), and
/// the biggest net profit is at least every recorded one, and at least zero.
pub proof fn lemma_tally_consistent(obs: Seq<(int, Status)>)
    ensures
        tally_of(obs).count == obs.len(),
        tally_of(obs).executed == count_with(obs, Status::Executable),
        tally_of(obs).low_profit == count_with(obs, Status::LowProfit),
        tally_of(obs).unprofitable == count_with(obs, Status::Unprofitable),
        tally_of(obs).profit == sum_with(obs, Status::Executable),
        tally_of(obs).missed == abs_sum_with(obs, Status::LowProfit),
        tally_of(obs).missed >= 0,
        forall|i: int| 0 <= i < obs.len() ==> tally_of(obs).biggest >= #[trigger] obs[i].0,
        tally_of(obs).biggest >= 0,
    decreases obs.len(),
{
    if obs.len() > 0 {
        let init = obs.drop_last();
        lemma_tally_consistent(init);
        assert forall|i: int| 0 <= i < obs.len() implies tally_of(obs).biggest >= #[trigger] obs[i].0 by {
            if i < obs.len() - 1 {
                assert(obs[i] == init[i]);
            }
        }
    }
}

/// The running statistics over every recorded observation.
#[derive(Clone, Copy, Debug, PartialEq, Eq, Structural)]
pub struct Stats {
    pub total_opportunities: u64,
    pub total_executed: u64,
    pub total_profit_usd: i128,
    pub total_missed_profit: i128,
    pub biggest_opportunity_usd: i128,
    pub profitable_after_fees: u64,
    pub missed_insufficient_balance: u64,
    pub missed_too_small: u64,
    pub total_unprofitable: u64,
}

/// The statistics before any observation.
pub open spec fn zero_stats() -> Stats {
    Stats {
        total_opportunities: 0,
        total_executed: 0,
        total_profit_usd: 0,
        total_missed_profit: 0,
        biggest_opportunity_usd: 0,
        profitable_after_fees: 0,
        missed_insufficient_balance: 0,
        missed_too_small: 0,
        total_unprofitable: 0,
    }
}

impl View for Stats {
    type V = Tally;

    open spec fn view(&self) -> Tally {
        Tally {
            count: self.total_opportunities as int,
            executed: self.total_executed as int,
            low_profit: self.missed_too_small as int,
            unprofitable: self.total_unprofitable as int,
            profit: self.total_profit_usd as int,
            missed: self.total_missed_profit as int,
            biggest: self.biggest_opportunity_usd as int,
        }
    }
}

impl Stats {
    /// Counts agree: every observation has exactly one status, the executed
    /// count is mirrored by the profitable-after-fees count, and the missed
    /// profit, a sum of absolute values, is not negative.
    pub open spec fn wf(&self) -> bool {
        &&& self.total_executed + self.missed_too_small + self.total_unprofitable
            == self.total_opportunities
        &&& self.profitable_after_fees == self.total_executed
        &&& self.missed_insufficient_balance == 0
        &&& self.total_missed_profit >= 0
    }

    /// Whether one more observation with net profit `net` can be counted
    /// without leaving the integer ranges.
    pub open spec fn has_room(&self, net: int) -> bool {
        &&& self.total_opportunities < u64::MAX
        &&& i128::MIN <= self.total_profit_usd + net <= i128::MAX
        &&& self.total_missed_profit + abs(net) <= i128::MAX
    }

    /// No observation yet.
    pub fn new() -> (r: Stats)
        ensures
            r.wf(),
            r == zero_stats(),
            r@ == empty_tally(),
    {
        Stats {
            total_opportunities: 0,
            total_executed: 0,
            total_profit_usd: 0,
            total_missed_profit: 0,
            biggest_opportunity_usd: 0,
            profitable_after_fees: 0,
            missed_insufficient_balance: 0,
            missed_too_small: 0,
            total_unprofitable: 0,
        }
    }

    pub fn can_record(&self, net: i128) -> (r: bool)
        requires
            self.wf(),
        ensures
            r == self.has_room(net as int),
    {
        if self.total_opportunities == u64::MAX {
            return false;
        }
        if net == i128::MIN {
            return false;
        }
        let magnitude: i128 = if net < 0 {
            -net
        } else {
            net
        };
        let p = self.total_profit_usd.checked_add(net);
        let m = self.total_missed_profit.checked_add(magnitude);
        p.is_some() && m.is_some()
    }

    /// Counts one observation: the total, the count of its status, and the
    /// cumulative profit (executable, its net profit) or missed profit (low
    /// profit, the absolute value of its net profit); raises
    /// the biggest net profit seen when exceeded.
    pub fn record(&mut self, net: i128, status: Status)
        requires
            old(self).wf(),
            old(self).has_room(net as int),
        ensures
            final(self).wf(),
            final(self)@ == tally_add(old(self)@, net as int, status),
    {
        self.total_opportunities = self.total_opportunities + 1;
        match status {
            Status::Executable => {
                self.total_executed = self.total_executed + 1;
                self.profitable_after_fees = self.profitable_after_fees + 1;
                self.total_profit_usd = self.total_profit_usd + net;
            },
            Status::LowProfit => {
                self.missed_too_small = self.missed_too_small + 1;
                let magnitude: i128 = if net < 0 {
                    -net
                } else {
                    net
                };
                self.total_missed_profit = self.total_missed_profit + magnitude;
            },
            Status::Unprofitable => {
                self.total_unprofitable = self.total_unprofitable + 1;
            },
        }
        if net > self.biggest_opportunity_usd {
            self.biggest_opportunity_usd = net;
        }
    }
}

/// The observations kept, newest last: the last `capacity` of `all`.
pub open spec fn kept(all: Seq<Opportunity>, capacity: nat) -> Seq<Opportunity> {
    if all.len() <= capacity {
        all
    } else {
        all.subrange(all.len() - capacity, all.len() as int)
    }
}

/// Running statistics together with a log of the most recent observations,
/// bounded by a capacity; the oldest entry leaves when the log is full.
pub struct AggregateStore {
    stats: Stats,
    log: Vec<Opportunity>,
    capacity: usize,
}

impl AggregateStore {
    /// The statistics are consistent and the log within its capacity.
    pub open spec fn wf(&self) -> bool {
        &&& self.stats_view().wf()
        &&& self.log_capacity() > 0
        &&& self.log_view().len() <= self.log_capacity()
    }

    pub closed spec fn stats_view(&self) -> Stats {
        self.stats
    }

    pub closed spec fn log_view(&self) -> Seq<Opportunity> {
        self.log@
    }

    pub closed spec fn log_capacity(&self) -> nat {
        self.capacity as nat
    }

    /// An empty store that keeps at most `capacity` observations.
    pub fn new(capacity: usize) -> (r: AggregateStore)
        requires
            capacity > 0,
        ensures
            r.wf(),
            r.stats_view() == zero_stats(),
            r.stats_view()@ == empty_tally(),
            r.log_view() == Seq::<Opportunity>::empty(),
            r.log_capacity() == capacity,
    {
        AggregateStore { stats: Stats::new(), log: Vec::new(), capacity }
    }

    /// Whether `opportunity` can be recorded without leaving the integer
    /// ranges of the statistics.
    pub fn can_record(&self, opportunity: &Opportunity) -> (r: bool)
        requires
            self.wf(),
        ensures
            r == self.stats_view().has_room(opportunity.net_profit as int),
    {
        self.stats.can_record(opportunity.net_profit)
    }

    /// Updates the statistics with `opportunity` and appends it to the log,
    /// dropping the oldest entry when the log is full.
    pub fn record(&mut self, opportunity: Opportunity)
        requires
            old(self).wf(),
            old(self).stats_view().has_room(opportunity.net_profit as int),
        ensures
            final(self).wf(),
            final(self).stats_view()@ == tally_add(
                old(self).stats_view()@,
                opportunity.net_profit as int,
                opportunity.status,
            ),
            final(self).log_view() == kept(
                old(self).log_view().push(opportunity),
                old(self).log_capacity(),
            ),
            final(self).log_capacity() == old(self).log_capacity(),
    {
        self.stats.record(opportunity.net_profit, opportunity.status);
        let ghost all = self.log@.push(opportunity);
        self.log.push(opportunity);
        if self.log.len() > self.capacity {
            self.log.remove(0);
            assert(self.log@ =~= all.subrange(all.len() - self.capacity, all.len() as int));
        }
    }

    /// A consistent copy of the statistics.
    pub fn snapshot(&self) -> (r: Stats)
        ensures
            r == self.stats_view(),
    {
        self.stats
    }

    /// The observations kept, oldest first.
    pub fn recent(&self) -> (r: &Vec<Opportunity>)
        ensures
            r@ == self.log_view(),
    {
        &self.log
    }
}

} // verus!
