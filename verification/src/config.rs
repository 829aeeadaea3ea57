//! Configuration: spike thresholds, selection of options per feed and per
//! weekday, display and filter settings.

use vstd::prelude::*;
use crate::feed::Feed;
use crate::scrape::{find_ch, spec_find_ch};
use crate::text::{all_digits, dec_value, eq_ignore_ascii_case_spec, parse_u32, str_eq,
    str_eq_ignore_ascii_case};

verus! {

/// A ratio stored in fixed point: the value stands for `value / RATIO_SCALE`,
/// so `4000` is 40 percent and `40000` is a multiplier of four.
#[derive(Clone, Copy, Debug, PartialEq, Eq, Structural)]
pub struct Percentage(pub u32);

impl Percentage {
    /// Builds a ratio from hundredths of a percent: `new(4000)` is 40%.
    pub fn new(pcnt: u32) -> (r: Self)
        ensures
            r.0 == pcnt,
    {
        Percentage(pcnt)
    }

    /// The ratio as a fixed-point multiplier scaled by `RATIO_SCALE`.
    pub fn as_mult(self) -> (r: u32)
        ensures
            r == self.0,
    {
        self.0
    }
}

/// A day of the week, for weekday-specific spike options.
#[derive(Clone, Copy, Debug, PartialEq, Eq, Structural)]
pub enum Weekday {
    Mon,
    Tue,
    Wed,
    Thu,
    Fri,
    Sat,
    Sun,
}

/// Spike thresholds that may vary per feed and per weekday.
#[derive(Clone, Copy, Debug, PartialEq, Eq, Structural)]
pub struct FeedOptions {
    /// Fraction of the listener count the jump must reach to count as a spike.
    pub jump_required: Percentage,
    /// Added to the threshold per listener under 50.
    pub low_listener_increase: Percentage,
    /// How much the threshold drops per `high_listener_dec_every` of rise.
    pub high_listener_dec: Percentage,
    /// Listener rise that earns one `high_listener_dec` of decrease; never
    /// zero in a well-formed configuration.
    pub high_listener_dec_every: u32,
    /// Multiplier of the baseline beyond which a jump freezes it at once.
    pub jump_required_unskewed: Percentage,
}

impl FeedOptions {
    /// The defaults: a 40% spike threshold, 0.005 per low listener, 0.02
    /// less per 100 listeners of rise, a 4.0x immediate-freeze multiplier.
    pub open spec fn spec_default() -> FeedOptions {
        FeedOptions {
            jump_required: Percentage(4000),
            low_listener_increase: Percentage(50),
            high_listener_dec: Percentage(200),
            high_listener_dec_every: 100,
            jump_required_unskewed: Percentage(40000),
        }
    }

    /// The divisor in the rising-feed rule must not be zero.
    pub open spec fn spec_wf(&self) -> bool {
        self.high_listener_dec_every >= 1
    }
}

impl Default for FeedOptions {
    fn default() -> (r: Self)
        ensures
            r == FeedOptions::spec_default(),
    {
        FeedOptions {
            jump_required: Percentage(4000),
            low_listener_increase: Percentage(50),
            high_listener_dec: Percentage(200),
            high_listener_dec_every: 100,
            jump_required_unskewed: Percentage(40000),
        }
    }
}

/// How the drift-resistant baseline freezes, drifts and releases.
#[derive(Clone, Copy, Debug, PartialEq, Eq, Structural)]
pub struct UnskewedOptions {
    /// The frozen baseline is released once the raw average is back within
    /// this fraction of it.
    pub reset_pcnt: Percentage,
    /// Interpolation factor for drifting the frozen baseline; at most 1.0
    /// in a well-formed configuration.
    pub adjust_pcnt: Percentage,
    /// Consecutive spikes beyond this count freeze the baseline.
    pub spikes_required: u32,
}

impl UnskewedOptions {
    /// The defaults: release within 15%, drift by 0.0075, freeze past one
    /// confirmed spike.
    pub open spec fn spec_default() -> UnskewedOptions {
        UnskewedOptions {
            reset_pcnt: Percentage(1500),
            adjust_pcnt: Percentage(75),
            spikes_required: 1,
        }
    }

    /// Drifting is an interpolation: its factor stays at or below one.
    pub open spec fn spec_wf(&self) -> bool {
        self.adjust_pcnt.0 <= crate::RATIO_SCALE
    }
}

impl Default for UnskewedOptions {
    fn default() -> (r: Self)
        ensures
            r == UnskewedOptions::spec_default(),
    {
        UnskewedOptions {
            reset_pcnt: Percentage(1500),
            adjust_pcnt: Percentage(75),
            spikes_required: 1,
        }
    }
}

/// Settings that are not per-feed.
#[derive(Clone, Copy, Debug)]
pub struct MiscOptions {
    /// Minutes between polling cycles.
    pub update_time_mins: u32,
    /// Feeds below this listener count are never scraped into a cycle.
    pub minimum_listeners: u32,
    /// Directory id of an extra location page to scrape, if any.
    pub state_id: Option<u32>,
    /// Cap on how many feeds one cycle may surface.
    pub show_max: u32,
    /// Cap on how many consecutive cycles one feed may be surfaced.
    pub show_max_times: Option<u32>,
    /// Whether a feed carrying an alert is surfaced even without a spike.
    pub show_alert_feeds: bool,
}

impl MiscOptions {
    pub open spec fn spec_default() -> MiscOptions {
        MiscOptions {
            update_time_mins: 6,
            minimum_listeners: 15,
            state_id: None,
            show_max: 10,
            show_max_times: None,
            show_alert_feeds: true,
        }
    }
}

impl Default for MiscOptions {
    fn default() -> (r: Self)
        ensures
            r == MiscOptions::spec_default(),
    {
        MiscOptions {
            update_time_mins: 6,
            minimum_listeners: 15,
            state_id: None,
            show_max: 10,
            show_max_times: None,
            show_alert_feeds: true,
        }
    }
}

/// Which value surfaced feeds are ordered by.
#[derive(Clone, Copy, Debug, PartialEq, Eq, Structural)]
pub enum SortType {
    Jump,
    Listeners,
}

impl Default for SortType {
    fn default() -> (r: Self)
        ensures
            r == SortType::Jump,
    {
        SortType::Jump
    }
}

/// Direction surfaced feeds are ordered in.
#[derive(Clone, Copy, Debug, PartialEq, Eq, Structural)]
pub enum SortOrder {
    Ascending,
    Descending,
}

impl Default for SortOrder {
    fn default() -> (r: Self)
        ensures
            r == SortOrder::Descending,
    {
        SortOrder::Descending
    }
}

/// How surfaced feeds are ordered for display.
#[derive(Clone, Copy, Debug, PartialEq, Eq, Structural)]
pub struct SortOptions {
    pub value: SortType,
    pub order: SortOrder,
}

impl Default for SortOptions {
    fn default() -> (r: Self)
        ensures
            r == (SortOptions { value: SortType::Jump, order: SortOrder::Descending }),
    {
        SortOptions { value: SortType::Jump, order: SortOrder::Descending }
    }
}

/// Picks out feeds, for filters and for per-feed options.
#[derive(Debug)]
pub enum FeedSelector {
    Global,
    ID(u32),
    County(String),
    State(u32),
}

impl FeedSelector {
    /// Whether this selector picks out the given feed. County names compare
    /// up to ASCII case.
    pub open spec fn spec_matches(&self, feed: &Feed) -> bool {
        match self {
            FeedSelector::Global => true,
            FeedSelector::ID(id) => *id == feed.id,
            FeedSelector::County(county) => eq_ignore_ascii_case_spec(county@, feed.county@),
            FeedSelector::State(state) => *state == feed.location.spec_id(),
        }
    }

    pub fn matches_feed(&self, feed: &Feed) -> (r: bool)
        ensures
            r == self.spec_matches(feed),
    {
        match self {
            FeedSelector::Global => true,
            FeedSelector::ID(id) => *id == feed.id,
            FeedSelector::County(county) => str_eq_ignore_ascii_case(
                county.as_str(),
                feed.county.as_str(),
            ),
            FeedSelector::State(state) => *state == feed.location.id(),
        }
    }
}

/// The mathematical content of a feed selector.
pub struct SelectorV {
    pub global: bool,
    pub id: Option<u32>,
    pub county: Option<Seq<char>>,
    pub state: Option<u32>,
}

impl View for FeedSelector {
    type V = SelectorV;

    open spec fn view(&self) -> SelectorV {
        match self {
            FeedSelector::Global => SelectorV {
                global: true,
                id: None,
                county: None,
                state: None,
            },
            FeedSelector::ID(id) => SelectorV {
                global: false,
                id: Some(*id),
                county: None,
                state: None,
            },
            FeedSelector::County(c) => SelectorV {
                global: false,
                id: None,
                county: Some(c@),
                state: None,
            },
            FeedSelector::State(st) => SelectorV {
                global: false,
                id: None,
                county: None,
                state: Some(*st),
            },
        }
    }
}

/// The selector a configuration string denotes: `global`, or one of
/// `id(..)`, `county(..)`, `state(..)` with the selector name compared
/// ignoring ASCII case.
pub open spec fn spec_selector_parse(s: Seq<char>) -> Option<SelectorV> {
    if s == "global"@ {
        Some(SelectorV { global: true, id: None, county: None, state: None })
    } else if s.len() == 0 || s.last() != ')' {
        None
    } else {
        match spec_find_ch(s, '(') {
            None => None,
            Some(p) => {
                let name = s.take(p);
                let value = s.subrange(p + 1, s.len() - 1);
                if eq_ignore_ascii_case_spec(name, "id"@) {
                    if value.len() > 0 && all_digits(value) && dec_value(value) <= u32::MAX {
                        Some(
                            SelectorV {
                                global: false,
                                id: Some(dec_value(value) as u32),
                                county: None,
                                state: None,
                            },
                        )
                    } else {
                        None
                    }
                } else if eq_ignore_ascii_case_spec(name, "county"@) {
                    Some(SelectorV { global: false, id: None, county: Some(value), state: None })
                } else if eq_ignore_ascii_case_spec(name, "state"@) {
                    if value.len() > 0 && all_digits(value) && dec_value(value) <= u32::MAX {
                        Some(
                            SelectorV {
                                global: false,
                                id: None,
                                county: None,
                                state: Some(dec_value(value) as u32),
                            },
                        )
                    } else {
                        None
                    }
                } else {
                    None
                }
            },
        }
    }
}

impl FeedSelector {
    /// Parses a selector from its configuration text.
    pub fn from_str(value: &str) -> (r: Option<FeedSelector>)
        ensures
            (r is Some) == (spec_selector_parse(value@) is Some),
            r matches Some(sel) ==> Some(sel@) == spec_selector_parse(value@),
    {
        if str_eq(value, "global") {
            return Some(FeedSelector::Global);
        }
        let vlen = value.unicode_len();
        if vlen == 0 || value.get_char(vlen - 1) != ')' {
            return None;
        }
        let p = match find_ch(value, '(') {
            Some(p) => p,
            None => {
                return None;
            },
        };
        proof {
            crate::scrape::lemma_first_ch_bounds(value@, '(', 0);
        }
        let name = value.substring_char(0, p);
        let sel_value = value.substring_char(p + 1, vlen - 1);
        proof {
            assert(name@ =~= value@.take(p as int));
            assert(sel_value@ =~= value@.subrange(p + 1, value@.len() - 1));
        }
        if str_eq_ignore_ascii_case(name, "id") {
            match parse_u32(sel_value) {
                Some(id) => Some(FeedSelector::ID(id)),
                None => None,
            }
        } else if str_eq_ignore_ascii_case(name, "county") {
            Some(FeedSelector::County(sel_value.to_owned()))
        } else if str_eq_ignore_ascii_case(name, "state") {
            match parse_u32(sel_value) {
                Some(id) => Some(FeedSelector::State(id)),
                None => None,
            }
        } else {
            None
        }
    }
}

impl Default for FeedSelector {
    fn default() -> (r: Self)
        ensures
            r is Global,
    {
        FeedSelector::Global
    }
}

/// Picks out feeds by exact attributes.
#[derive(Debug)]
pub enum FeedIdent {
    Name(String),
    ID(u32),
    County(String),
    State(u32),
}

impl FeedIdent {
    /// Whether this identifier matches the given feed exactly.
    pub open spec fn spec_matches(&self, feed: &Feed) -> bool {
        match self {
            FeedIdent::Name(name) => name@ == feed.name@,
            FeedIdent::ID(id) => *id == feed.id,
            FeedIdent::County(county) => county@ == feed.county@,
            FeedIdent::State(state) => *state == feed.location.spec_id(),
        }
    }

    pub fn matches_feed(&self, feed: &Feed) -> (r: bool)
        ensures
            r == self.spec_matches(feed),
    {
        match self {
            FeedIdent::Name(name) => str_eq(name.as_str(), feed.name.as_str()),
            FeedIdent::ID(id) => *id == feed.id,
            FeedIdent::County(county) => str_eq(county.as_str(), feed.county.as_str()),
            FeedIdent::State(state) => *state == feed.location.id(),
        }
    }
}

/// Allow- and deny-lists applied to scraped feeds before statistics run.
#[derive(Debug)]
pub struct FilterOptions {
    pub blacklist: Vec<FeedSelector>,
    pub whitelist: Vec<FeedSelector>,
}

impl Default for FilterOptions {
    fn default() -> (r: Self)
        ensures
            r.blacklist@.len() == 0,
            r.whitelist@.len() == 0,
    {
        FilterOptions { blacklist: Vec::new(), whitelist: Vec::new() }
    }
}

/// Per-feed options keyed by selector. The list form keeps its entries in
/// insertion order and the first matching selector wins, so two entries
/// with the same selector are tolerated: the earlier one shadows the later.
pub type FeedOptionMap = Vec<(FeedSelector, FeedOptions)>;

/// The whole configuration for one run.
#[derive(Debug)]
pub struct Config {
    /// Weekday-specific option tables; the first entry for the current
    /// weekday replaces the global table entirely.
    pub weekday: Vec<(Weekday, FeedOptionMap)>,
    /// The global per-feed option table.
    pub feed: FeedOptionMap,
    pub unskewed: UnskewedOptions,
    pub misc: MiscOptions,
    pub sorting: SortOptions,
    pub filters: FilterOptions,
}

/// The first options whose selector matches the feed, scanning from `i`.
pub open spec fn spec_first_match(
    entries: Seq<(FeedSelector, FeedOptions)>,
    feed: &Feed,
    i: int,
) -> Option<FeedOptions>
    decreases entries.len() - i,
{
    if i < 0 || i >= entries.len() {
        None
    } else if entries[i].0.spec_matches(feed) {
        Some(entries[i].1)
    } else {
        spec_first_match(entries, feed, i + 1)
    }
}

/// The option table for the given weekday, scanning from `i`.
pub open spec fn spec_weekday_table(
    entries: Seq<(Weekday, FeedOptionMap)>,
    weekday: Weekday,
    i: int,
) -> Option<int>
    decreases entries.len() - i,
{
    if i < 0 || i >= entries.len() {
        None
    } else if entries[i].0 == weekday {
        Some(i)
    } else {
        spec_weekday_table(entries, weekday, i + 1)
    }
}

impl Config {
    /// Every option entry keeps its divisors and fractions in range.
    pub open spec fn spec_wf(&self) -> bool {
        &&& self.unskewed.spec_wf()
        &&& forall|i: int|
            0 <= i < self.feed@.len() ==> (#[trigger] self.feed@[i]).1.spec_wf()
        &&& forall|w: int, i: int|
            0 <= w < self.weekday@.len() && 0 <= i < self.weekday@[w].1@.len() ==> (
            #[trigger] self.weekday@[w].1@[i]).1.spec_wf()
    }

    /// The option table consulted for this feed: the current weekday's table
    /// if one is configured, else the global one.
    pub open spec fn spec_table_for(&self, weekday: Weekday) -> Seq<(FeedSelector, FeedOptions)> {
        match spec_weekday_table(self.weekday@, weekday, 0) {
            Some(i) => self.weekday@[i].1@,
            None => self.feed@,
        }
    }

    /// The options this feed gets on this weekday: the first matching entry
    /// of the consulted table, or the defaults.
    pub open spec fn spec_options_for_feed(&self, feed: &Feed, weekday: Weekday) -> FeedOptions {
        match spec_first_match(self.spec_table_for(weekday), feed, 0) {
            Some(opts) => opts,
            None => FeedOptions::spec_default(),
        }
    }

    pub fn options_for_feed(&self, feed: &Feed, weekday: Weekday) -> (r: FeedOptions)
        ensures
            r == self.spec_options_for_feed(feed, weekday),
            self.spec_wf() ==> r.spec_wf(),
    {
        let mut w: usize = 0;
        let mut table: &FeedOptionMap = &self.feed;
        let mut found_weekday = false;
        while w < self.weekday.len() && !found_weekday
            invariant
                w <= self.weekday@.len(),
                self.spec_wf() ==> (forall|i: int|
                    0 <= i < table@.len() ==> (#[trigger] table@[i]).1.spec_wf()),
                !found_weekday ==> spec_weekday_table(self.weekday@, weekday, 0)
                    == spec_weekday_table(self.weekday@, weekday, w as int),
                found_weekday ==> w < self.weekday@.len()
                    && spec_weekday_table(self.weekday@, weekday, 0) == Some(w as int),
                found_weekday ==> table@ == self.spec_table_for(weekday),
                !found_weekday ==> table@ == self.feed@,
            decreases self.weekday@.len() - w, (if found_weekday { 0int } else { 1int }),
    {
            if self.weekday[w].0 == weekday {
                table = &self.weekday[w].1;
                found_weekday = true;
            } else {
                w = w + 1;
            }
        }
        proof {
            assert(table@ == self.spec_table_for(weekday));
        }

        let mut i: usize = 0;
        while i < table.len()
            invariant
                i <= table@.len(),
                table@ == self.spec_table_for(weekday),
                self.spec_wf() ==> (forall|j: int|
                    0 <= j < table@.len() ==> (#[trigger] table@[j]).1.spec_wf()),
                spec_first_match(table@, feed, 0) == spec_first_match(table@, feed, i as int),
            decreases table@.len() - i,
        {
            if table[i].0.matches_feed(feed) {
                return table[i].1;
            }
            i = i + 1;
        }
        FeedOptions::default()
    }
}

impl Default for Config {
    fn default() -> (r: Self)
        ensures
            r.weekday@.len() == 0,
            r.feed@.len() == 0,
            r.unskewed == UnskewedOptions::spec_default(),
            r.misc == MiscOptions::spec_default(),
            r.sorting == (SortOptions { value: SortType::Jump, order: SortOrder::Descending }),
            r.filters.blacklist@.len() == 0,
            r.filters.whitelist@.len() == 0,
            r.spec_wf(),
    {
        Config {
            weekday: Vec::new(),
            feed: Vec::new(),
            unskewed: UnskewedOptions::default(),
            misc: MiscOptions::default(),
            sorting: SortOptions::default(),
            filters: FilterOptions::default(),
        }
    }
}

} // verus!
