use vstd::prelude::*;
use crate::catalog::{get_trading_pairs, catalog, next_position, AssetTarget, RoundRobin};
use crate::hub::{is_subscribed, model_wf, pending, publish_model, subscribe_model, Hub, HubModel, Receive};
use crate::market::{classify, cost_model, cost_spec, spread_of, spread_pct, status_of, Config};
use crate::store::{empty_tally, kept, tally_add, zero_stats, AggregateStore, Opportunity, Stats};

verus! {

/// How many messages the hub holds for slow subscribers.
pub const HUB_CAPACITY: usize = 100;

/// How many observations the store keeps.
pub const LOG_CAPACITY: usize = 1000;

/// Reference price of ETH assumed until the first one is read.
pub const INITIAL_ETH_PRICE: u64 = 350_000_000_000;

/// The statistics as published, with the latest ETH prices on both markets
/// and the number of tracked pools.
#[derive(Clone, Copy, Debug, PartialEq, Eq, Structural)]
pub struct StatsUpdate {
    pub stats: Stats,
    pub eth_price: u64,
    pub venue_eth_price: u64,
    pub active_pools: u64,
}

/// What subscribers receive.
#[derive(Debug)]
pub enum BroadcastMessage {
    Stats(StatsUpdate),
    Opportunity(Opportunity),
}

impl BroadcastMessage {
    /// An identical copy of the message.
    pub fn duplicate(&self) -> (r: BroadcastMessage)
        ensures
            r == *self,
    {
        match self {
            BroadcastMessage::Stats(s) => BroadcastMessage::Stats(*s),
            BroadcastMessage::Opportunity(o) => BroadcastMessage::Opportunity(o.duplicate()),
        }
    }
}

/// The ten decimal digit characters, in order.
pub open spec fn digit_chars() -> Seq<char> {
    seq!['0', '1', '2', '3', '4', '5', '6', '7', '8', '9']
}

/// The decimal digits of `n`, most significant first.
pub open spec fn decimal_chars(n: nat) -> Seq<char>
    decreases n,
{
    if n < 10 {
        seq![digit_chars()[n as int]]
    } else {
        decimal_chars(n / 10).push(digit_chars()[(n % 10) as int])
    }
}

/// The one-character text of a decimal digit.
fn digit_text(d: u64) -> (r: &'static str)
    requires
        d < 10,
    ensures
        r@ == seq![digit_chars()[d as int]],
{
    proof {
        reveal_strlit("0");
        reveal_strlit("1");
        reveal_strlit("2");
        reveal_strlit("3");
        reveal_strlit("4");
        reveal_strlit("5");
        reveal_strlit("6");
        reveal_strlit("7");
        reveal_strlit("8");
        reveal_strlit("9");
    }
    let r = match d {
        0 => "0",
        1 => "1",
        2 => "2",
        3 => "3",
        4 => "4",
        5 => "5",
        6 => "6",
        7 => "7",
        8 => "8",
        _ => "9",
    };
    assert(r@ =~= seq![digit_chars()[d as int]]);
    r
}

/// The decimal digits of `n`, with no sign, padding or separator.
fn decimal_text(n: u64) -> (r: String)
    ensures
        r@ == decimal_chars(n as nat),
    decreases n,
{
    if n < 10 {
        String::from_str(digit_text(n))
    } else {
        let head = decimal_text(n / 10);
        let r = head.concat(digit_text(n % 10));
        assert(r@ =~= decimal_chars(n as nat));
        r
    }
}

/// The label of an asset's pair.
pub open spec fn pair_label(symbol: Seq<char>) -> Seq<char> {
    symbol + "/USDC"@
}

/// The id of an observation of `symbol` made at `timestamp`.
pub open spec fn opportunity_id(symbol: Seq<char>, timestamp: u64) -> Seq<char> {
    "opp_"@ + symbol + "_"@ + decimal_chars(timestamp as nat)
}

/// Whether `o` is the observation of `symbol` at the given prices, priced
/// and classified under `config`.
pub open spec fn assessed(
    o: Opportunity,
    config: Config,
    symbol: Seq<char>,
    reference: u64,
    venue: u64,
    timestamp: u64,
) -> bool {
    let spread = spread_of(reference as nat, venue as nat);
    let costs = cost_spec(
        config.usdc_balance as nat,
        spread,
        config.flash_loan_fee_pct as nat,
        config.dex_fee_pct as nat,
        config.gas_cost_usd as nat,
    );
    &&& o.id@ == opportunity_id(symbol, timestamp)
    &&& o.timestamp == timestamp
    &&& o.pair@ == pair_label(symbol)
    &&& o.reference_price == reference
    &&& o.venue_price == venue
    &&& o.spread_pct == spread
    &&& o.capital_used == config.usdc_balance
    &&& o.gross_profit == costs.gross
    &&& o.cost_flash_loan == costs.loan_cost
    &&& o.cost_dex_fees == costs.venue_cost
    &&& o.cost_gas == costs.fixed_cost
    &&& o.net_profit == costs.net
    &&& o.status == status_of(costs.net as int, config.min_net_profit as int)
    &&& o.required_capital == Some(config.usdc_balance)
}

/// Prices and classifies one sample of `symbol`: `None` when the spread is
/// at or above the configured ceiling, which marks the sample as noise.
pub fn evaluate(config: &Config, symbol: &String, reference: u64, venue: u64, timestamp: u64) -> (r:
    Option<Opportunity>)
    requires
        venue > 0,
    ensures
        r is None <==> spread_of(reference as nat, venue as nat) >= config.max_spread_pct,
        r is Some ==> assessed(r->0, *config, symbol@, reference, venue, timestamp),
{
    let spread = spread_pct(reference, venue);
    if spread >= config.max_spread_pct as u128 {
        return None;
    }
    let spread = spread as u64;
    let costs = cost_model(
        config.usdc_balance,
        spread,
        config.flash_loan_fee_pct,
        config.dex_fee_pct,
        config.gas_cost_usd,
    );
    let status = classify(costs.net, config.min_net_profit as i128);
    let digits = decimal_text(timestamp);
    let id = String::from_str("opp_").concat(symbol.as_str()).concat("_").concat(digits.as_str());
    let pair = symbol.clone().concat("/USDC");
    proof {
        assert(id@ =~= opportunity_id(symbol@, timestamp));
    }
    Some(
        Opportunity {
            id,
            timestamp,
            pair,
            reference_price: reference,
            venue_price: venue,
            spread_pct: spread,
            capital_used: config.usdc_balance,
            gross_profit: costs.gross,
            cost_flash_loan: costs.loan_cost,
            cost_gas: costs.fixed_cost,
            cost_dex_fees: costs.venue_cost,
            net_profit: costs.net,
            status,
            required_capital: Some(config.usdc_balance),
        },
    )
}

/// Net profit of a sample at these prices under `config`.
pub open spec fn sample_net(config: Config, reference: u64, venue: u64) -> i128 {
    cost_spec(
        config.usdc_balance as nat,
        spread_of(reference as nat, venue as nat),
        config.flash_loan_fee_pct as nat,
        config.dex_fee_pct as nat,
        config.gas_cost_usd as nat,
    ).net
}

/// Whether a sample of asset `asset` at these prices is under the spread
/// ceiling and the counters and the hub have room for it.
pub open spec fn sample_fits(before: Scanner, reference: u64, venue: u64) -> bool {
    &&& spread_of(reference as nat, venue as nat) < before.config_view().max_spread_pct
    &&& before.stats_view().has_room(sample_net(before.config_view(), reference, venue) as int)
    &&& before.hub_view().history.len() + 2 < u64::MAX
}

/// The sample of asset `asset` was recorded and published: the statistics
/// took its observation, the log kept it as its newest entry, and the hub
/// received the observation and then the updated statistics.
pub open spec fn sample_published(
    before: Scanner,
    after: Scanner,
    asset: int,
    reference: u64,
    venue: u64,
    timestamp: u64,
) -> bool {
    exists|o: Opportunity|
        {
            &&& #[trigger] assessed(
                o,
                before.config_view(),
                before.targets_view()[asset].symbol@,
                reference,
                venue,
                timestamp,
            )
            &&& after.stats_view()@ == tally_add(before.stats_view()@, o.net_profit as int, o.status)
            &&& after.log_view() == kept(before.log_view().push(o), LOG_CAPACITY as nat)
            &&& after.hub_view() == publish_model(
                publish_model(before.hub_view(), BroadcastMessage::Opportunity(o)),
                BroadcastMessage::Stats(
                    StatsUpdate {
                        stats: after.stats_view(),
                        eth_price: after.eth_prices().0,
                        venue_eth_price: after.eth_prices().1,
                        active_pools: before.targets_view().len() as u64,
                    },
                ),
            )
        }
}

/// Statistics, log and hub are the same in both.
pub open spec fn records_unchanged(before: Scanner, after: Scanner) -> bool {
    &&& after.stats_view() == before.stats_view()
    &&& after.log_view() == before.log_view()
    &&& after.hub_view() == before.hub_view()
}

/// Everything but the statistics, the log and the hub is the same in both.
pub open spec fn scan_unchanged(before: Scanner, after: Scanner) -> bool {
    &&& after.config_view() == before.config_view()
    &&& after.targets_view() == before.targets_view()
    &&& after.cursor() == before.cursor()
    &&& after.phase_view() == before.phase_view()
    &&& after.eth_prices() == before.eth_prices()
}

/// Where the scanner stands within one cycle.
#[derive(Clone, Copy, Debug, PartialEq, Eq, Structural)]
pub enum Phase {
    /// Between cycles.
    Idle,
    /// Waiting for the reference price of this asset.
    AwaitReference(usize),
    /// Waiting for the venue price of this asset, oriented against the
    /// reference price that was read.
    AwaitVenue(usize, u64),
}

/// What the scanner asks of its surroundings next.
#[derive(Clone, Copy, Debug, PartialEq, Eq, Structural)]
pub enum Action {
    /// Read the reference price of this asset.
    FetchReference(usize),
    /// Read the venue quotes of this asset and orient them against the
    /// given reference price.
    FetchVenue(usize, u64),
    /// Wait this many milliseconds before the next cycle.
    Sleep(u64),
}

/// What the surroundings report back.
#[derive(Clone, Copy, Debug, PartialEq, Eq, Structural)]
pub enum Event {
    /// The reference price read, or `None` when the source was unavailable.
    Reference(Option<u64>),
    /// The venue price read, or `None` when unavailable, with the time in
    /// milliseconds since the epoch.
    Venue(Option<u64>, u64),
    /// The pause between cycles is over.
    Woke,
}

/// The action that a phase waits on.
pub open spec fn action_of(phase: Phase, interval: u64) -> Action {
    match phase {
        Phase::Idle => Action::Sleep(interval),
        Phase::AwaitReference(a) => Action::FetchReference(a),
        Phase::AwaitVenue(a, p) => Action::FetchVenue(a, p),
    }
}

/// The perpetual scanning cycle: round-robin over the catalog, one asset
/// at a time, each sample priced, classified, recorded and published.
pub struct Scanner {
    config: Config,
    targets: Vec<AssetTarget>,
    schedule: RoundRobin,
    store: AggregateStore,
    hub: Hub<BroadcastMessage>,
    eth_price: u64,
    venue_eth_price: u64,
    phase: Phase,
}

impl Scanner {
    /// The statistics are consistent, the hub well formed, and the cycle
    /// state in range.
    pub open spec fn wf(&self) -> bool {
        &&& self.inv()
        &&& self.stats_view().wf()
        &&& model_wf(self.hub_view())
    }

    pub closed spec fn inv(&self) -> bool {
        &&& self.store.log_capacity() == LOG_CAPACITY
        &&& self.schedule.wf()
        &&& self.schedule.size() == self.targets@.len()
        &&& self.store.wf()
        &&& self.hub.wf()
        &&& match self.phase {
            Phase::Idle => true,
            Phase::AwaitReference(a) => a < self.targets@.len(),
            Phase::AwaitVenue(a, p) => a < self.targets@.len() && p > 0,
        }
    }

    pub closed spec fn config_view(&self) -> Config {
        self.config
    }

    pub closed spec fn targets_view(&self) -> Seq<AssetTarget> {
        self.targets@
    }

    pub closed spec fn cursor(&self) -> nat {
        self.schedule.position()
    }

    pub closed spec fn phase_view(&self) -> Phase {
        self.phase
    }

    pub closed spec fn stats_view(&self) -> Stats {
        self.store.stats_view()
    }

    pub closed spec fn hub_view(&self) -> HubModel<BroadcastMessage> {
        self.hub.view()
    }

    pub closed spec fn log_view(&self) -> Seq<Opportunity> {
        self.store.log_view()
    }

    pub closed spec fn eth_prices(&self) -> (u64, u64) {
        (self.eth_price, self.venue_eth_price)
    }

    /// A scanner over the standard catalog, idle, with nothing recorded.
    pub fn new(config: Config) -> (r: Scanner)
        ensures
            r.wf(),
            r.config_view() == config,
            r.targets_view().len() == catalog().len(),
            forall|i: int| 0 <= i < catalog().len() ==> #[trigger] r.targets_view()[i]@ == catalog()[i],
            r.cursor() == 0,
            r.phase_view() == Phase::Idle,
            r.stats_view() == zero_stats(),
            r.stats_view()@ == empty_tally(),
            r.log_view() == Seq::<Opportunity>::empty(),
            r.hub_view().history == Seq::<BroadcastMessage>::empty(),
            r.hub_view().cursors == Seq::<Option<u64>>::empty(),
            r.eth_prices() == (INITIAL_ETH_PRICE, 0u64),
    {
        let targets = get_trading_pairs();
        let schedule = RoundRobin::new(targets.len());
        Scanner {
            config,
            targets,
            schedule,
            store: AggregateStore::new(LOG_CAPACITY),
            hub: Hub::new(HUB_CAPACITY),
            eth_price: INITIAL_ETH_PRICE,
            venue_eth_price: 0,
            phase: Phase::Idle,
        }
    }

    /// The tracked asset at position `i`.
    pub fn target(&self, i: usize) -> (r: &AssetTarget)
        requires
            i < self.targets_view().len(),
        ensures
            *r == self.targets_view()[i as int],
    {
        &self.targets[i]
    }

    pub fn target_count(&self) -> (r: usize)
        ensures
            r == self.targets_view().len(),
    {
        self.targets.len()
    }

    /// Where the scanner stands within the current cycle.
    pub fn phase(&self) -> (r: Phase)
        ensures
            r == self.phase_view(),
    {
        self.phase
    }

    /// The action the scanner waits on now.
    pub fn pending_action(&self) -> (r: Action)
        ensures
            r == action_of(self.phase_view(), self.config_view().scan_interval_ms),
    {
        match self.phase {
            Phase::Idle => Action::Sleep(self.config.scan_interval_ms),
            Phase::AwaitReference(a) => Action::FetchReference(a),
            Phase::AwaitVenue(a, p) => Action::FetchVenue(a, p),
        }
    }

    /// A consistent copy of the statistics.
    pub fn snapshot(&self) -> (r: Stats)
        requires
            self.wf(),
        ensures
            r == self.stats_view(),
            r.wf(),
    {
        self.store.snapshot()
    }

    /// The statistics as published, with the latest ETH prices.
    pub fn stats_update(&self) -> (r: StatsUpdate)
        requires
            self.wf(),
        ensures
            r.stats == self.stats_view(),
            r.stats.wf(),
            (r.eth_price, r.venue_eth_price) == self.eth_prices(),
            r.active_pools == self.targets_view().len(),
    {
        StatsUpdate {
            stats: self.store.snapshot(),
            eth_price: self.eth_price,
            venue_eth_price: self.venue_eth_price,
            active_pools: self.targets.len() as u64,
        }
    }

    /// The observations kept, oldest first.
    pub fn recent(&self) -> (r: &Vec<Opportunity>)
        ensures
            r@ == self.log_view(),
    {
        self.store.recent()
    }

    /// Whether `symbol` names ETH, whose prices the statistics carry.
    fn is_eth(symbol: &String) -> (r: bool)
        ensures
            r == (symbol@ == "ETH"@),
    {
        let eth = String::from_str("ETH");
        *symbol == eth
    }

    /// Records a sample of asset `asset` when its spread is under the
    /// ceiling and the counters have room: the store takes it, and the hub
    /// receives the observation and then the updated statistics. Returns
    /// whether that happened; otherwise nothing changes.
    fn observe(&mut self, asset: usize, reference: u64, venue: u64, timestamp: u64) -> (r: bool)
        requires
            old(self).wf(),
            asset < old(self).targets_view().len(),
            venue > 0,
        ensures
            final(self).wf(),
            scan_unchanged(*old(self), *final(self)),
            spread_of(reference as nat, venue as nat) >= old(self).config_view().max_spread_pct ==> !r,
            sample_fits(*old(self), reference, venue) ==> r,
            !r ==> records_unchanged(*old(self), *final(self)),
            r ==> sample_published(*old(self), *final(self), asset as int, reference, venue, timestamp),
    {
        let opp = match evaluate(&self.config, &self.targets[asset].symbol, reference, venue, timestamp) {
            Some(o) => o,
            None => return false,
        };
        if !self.store.can_record(&opp) || !self.hub.has_room(2) {
            return false;
        }
        let message = BroadcastMessage::Opportunity(opp.duplicate());
        let ghost o = opp;
        self.store.record(opp);
        self.hub.publish(message);
        let update = self.stats_update();
        self.hub.publish(BroadcastMessage::Stats(update));
        true
    }

    /// Advances the cycle by one event and returns the next action.
    ///
    /// Idle, on waking: the next asset of the round-robin is fetched. With a
    /// reference price that is present and positive, its venue price is
    /// fetched (ETH's reference price is kept for the statistics); an
    /// unavailable one ends the cycle. With a venue price that is present
    /// and positive the sample is evaluated and, under the spread ceiling,
    /// recorded and published; the cycle then ends. An event that the
    /// current phase does not wait on changes nothing.
    pub fn step(&mut self, event: Event) -> (r: Action)
        requires
            old(self).wf(),
        ensures
            final(self).wf(),
            final(self).config_view() == old(self).config_view(),
            final(self).targets_view() == old(self).targets_view(),
            r == action_of(final(self).phase_view(), final(self).config_view().scan_interval_ms),
            match (old(self).phase_view(), event) {
                (Phase::Idle, Event::Woke) => {
                    &&& final(self).phase_view() == Phase::AwaitReference(old(self).cursor() as usize)
                    &&& final(self).cursor() == next_position(old(self).cursor(), old(self).targets_view().len())
                    &&& final(self).eth_prices() == old(self).eth_prices()
                    &&& records_unchanged(*old(self), *final(self))
                },
                (Phase::AwaitReference(a), Event::Reference(p)) => {
                    &&& final(self).cursor() == old(self).cursor()
                    &&& records_unchanged(*old(self), *final(self))
                    &&& if p is Some && p->0 > 0 {
                        &&& final(self).phase_view() == Phase::AwaitVenue(a, p->0)
                        &&& final(self).eth_prices() == if old(self).targets_view()[a as int].symbol@ == "ETH"@ {
                            (p->0, old(self).eth_prices().1)
                        } else {
                            old(self).eth_prices()
                        }
                    } else {
                        &&& final(self).phase_view() == Phase::Idle
                        &&& final(self).eth_prices() == old(self).eth_prices()
                    }
                },
                (Phase::AwaitVenue(a, p), Event::Venue(v, t)) => {
                    &&& final(self).phase_view() == Phase::Idle
                    &&& final(self).eth_prices() == if v is Some && v->0 > 0
                        && old(self).targets_view()[a as int].symbol@ == "ETH"@ {
                        (old(self).eth_prices().0, v->0)
                    } else {
                        old(self).eth_prices()
                    }
                    &&& final(self).cursor() == old(self).cursor()
                    &&& (v is None || v->0 == 0) ==> records_unchanged(*old(self), *final(self))
                    &&& v is Some && spread_of(p as nat, v->0 as nat) >= old(self).config_view().max_spread_pct
                        ==> records_unchanged(*old(self), *final(self))
                    &&& v is Some && v->0 > 0 && sample_fits(*old(self), p, v->0) ==> sample_published(
                        *old(self),
                        *final(self),
                        a as int,
                        p,
                        v->0,
                        t,
                    )
                    &&& records_unchanged(*old(self), *final(self)) || (v is Some && sample_published(
                        *old(self),
                        *final(self),
                        a as int,
                        p,
                        v->0,
                        t,
                    ))
                },
                _ => {
                    &&& final(self).phase_view() == old(self).phase_view()
                    &&& final(self).cursor() == old(self).cursor()
                    &&& final(self).eth_prices() == old(self).eth_prices()
                    &&& records_unchanged(*old(self), *final(self))
                },
            },
    {
        match (self.phase, event) {
            (Phase::Idle, Event::Woke) => {
                let a = self.schedule.next();
                self.phase = Phase::AwaitReference(a);
            },
            (Phase::AwaitReference(a), Event::Reference(p)) => {
                let price: u64 = match p {
                    Some(x) => x,
                    None => 0,
                };
                if price > 0 {
                    if Self::is_eth(&self.targets[a].symbol) {
                        self.eth_price = price;
                    }
                    self.phase = Phase::AwaitVenue(a, price);
                } else {
                    self.phase = Phase::Idle;
                }
            },
            (Phase::AwaitVenue(a, p), Event::Venue(v, t)) => {
                self.phase = Phase::Idle;
                let venue: u64 = match v {
                    Some(x) => x,
                    None => 0,
                };
                if venue > 0 {
                    if Self::is_eth(&self.targets[a].symbol) {
                        self.venue_eth_price = venue;
                    }
                    self.observe(a, p, venue, t);
                }
            },
            _ => {},
        }
        self.pending_action()
    }

    /// Adds a subscriber that receives what is published from now on.
    pub fn subscribe(&mut self) -> (id: usize)
        requires
            old(self).wf(),
        ensures
            final(self).wf(),
            final(self).hub_view() == subscribe_model(old(self).hub_view()),
            id == old(self).hub_view().cursors.len(),
            final(self).stats_view() == old(self).stats_view(),
            final(self).log_view() == old(self).log_view(),
            scan_unchanged(*old(self), *final(self)),
    {
        self.hub.subscribe()
    }

    /// Removes a subscriber.
    pub fn unsubscribe(&mut self, id: usize)
        requires
            old(self).wf(),
        ensures
            final(self).wf(),
            final(self).stats_view() == old(self).stats_view(),
            final(self).log_view() == old(self).log_view(),
            scan_unchanged(*old(self), *final(self)),
            final(self).hub_view().history == old(self).hub_view().history,
            !is_subscribed(final(self).hub_view(), id as int),
            forall|j: int|
                j != id ==> is_subscribed(final(self).hub_view(), j)
                    == is_subscribed(old(self).hub_view(), j),
    {
        self.hub.unsubscribe(id)
    }

    /// The next message for subscriber `id`, a copy: `Ok(None)` when there is
    /// nothing new, `Err(n)` when `n` messages were dropped before it read
    /// them (it then reads on from the oldest held), and `Ok(None)` too for an
    /// id that is not subscribed, which `is_subscribed` tells apart.
    pub fn receive(&mut self, id: usize) -> (r: Result<Option<BroadcastMessage>, u64>)
        requires
            old(self).wf(),
        ensures
            final(self).wf(),
            final(self).stats_view() == old(self).stats_view(),
            final(self).log_view() == old(self).log_view(),
            scan_unchanged(*old(self), *final(self)),
            final(self).hub_view().history == old(self).hub_view().history,
            r matches Ok(Some(m)) ==> pending(old(self).hub_view(), id as int).len() > 0
                && m == pending(old(self).hub_view(), id as int)[0]
                && pending(final(self).hub_view(), id as int) == pending(
                old(self).hub_view(),
                id as int,
            ).drop_first(),
            r matches Ok(None) ==> pending(old(self).hub_view(), id as int).len() == 0,
            r matches Err(n) ==> is_subscribed(old(self).hub_view(), id as int)
                && old(self).hub_view().cursors[id as int]->0 < old(self).hub_view().first
                && n == old(self).hub_view().first - old(self).hub_view().cursors[id as int]->0
                && pending(final(self).hub_view(), id as int) == pending(
                old(self).hub_view(),
                id as int,
            ),
    {
        match self.hub.recv(id) {
            Receive::Message(seq) => Ok(Some(self.hub.message(seq).duplicate())),
            Receive::Lagged(n) => Err(n),
            _ => Ok(None),
        }
    }

    /// Whether `id` is a current subscriber.
    pub fn is_subscribed(&self, id: usize) -> (r: bool)
        requires
            self.wf(),
        ensures
            r == is_subscribed(self.hub_view(), id as int),
    {
        self.hub.is_subscribed(id)
    }
}

} // verus!
