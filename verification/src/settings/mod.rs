//! Session configuration: libtorrent's `settings_pack`.
//!
//! [`SettingsPack`] is a *delta*: it holds only the settings explicitly set
//! on it. Applying a pack to a session updates just those values.
//!
//! Every known setting is written through a typed method (e.g.
//! [`SettingsPack::upload_rate_limit`]); these are the only write path,
//! and they enforce each setting's safe value domain (fallible setters
//! return [`SettingsError`] and stage nothing). Interdependent settings
//! are written as groups ([`SettingsPack::proxy`], [`SettingsPack::i2p`],
//! [`SettingsPack::outgoing_ports`], ...) whose config types make invalid
//! combinations unrepresentable. The [`SettingKey`]-based getters and
//! [`setting_by_name`] remain available for reads and diagnostics.
//!
//! A key is libtorrent's encoding: the value type in the top bits (string
//! keys from `0x0000`, integer keys from `0x4000`, boolean keys from
//! `0x8000`) and the setting's index within its type below. The indices
//! are those of [`all_settings`].

use vstd::prelude::*;

mod bandwidth;
mod connections;
mod dht;
pub mod enums;
pub mod bootstrap;
pub mod error;
pub mod interfaces;
pub mod laws;
pub mod lists;
pub mod port;
mod net;
pub mod proxy;
mod storage;
pub mod table;
pub mod tokens;
mod tracker;

pub use bootstrap::HostPort;
pub use enums::{
    BandwidthMixedAlgo, ChokingAlgorithm, EncLevel, EncPolicy, IoBufferMode, MmapWriteMode,
    ProxyType, SeedChokingAlgorithm, SuggestMode,
};
pub use proxy::{Credentials, I2pConfig, I2pTunnels, ProxyConfig, ProxyProtocol};
pub use error::SettingsError;
pub use interfaces::ListenEndpoint;

use crate::text::string_of;
use table::{
    bool_default, bool_setting_default, int_default, int_setting_default, setting_name_at,
    spec_setting_name, str_default, str_setting_default, ANNOUNCE_TO_ALL_TIERS,
    ANNOUNCE_TO_ALL_TRACKERS, NUM_BOOL, NUM_INT, NUM_STR,
};

verus! {

/// The first string key.
pub const STR_BASE: i32 = 0x0000;
/// The first integer key.
pub const INT_BASE: i32 = 0x4000;
/// The first boolean key.
pub const BOOL_BASE: i32 = 0x8000;
/// The span of keys of one value type.
pub const KIND_SPAN: i32 = 0x4000;

/// The value type of a setting key.
#[derive(Clone, Copy, Debug, PartialEq, Eq, Hash, Structural)]
pub enum SettingKind {
    Str,
    Int,
    Bool,
}

/// The number of settings of a kind.
pub open spec fn kind_count(kind: SettingKind) -> int {
    match kind {
        SettingKind::Str => NUM_STR as int,
        SettingKind::Int => NUM_INT as int,
        SettingKind::Bool => NUM_BOOL as int,
    }
}

/// The first key of a kind.
pub open spec fn kind_base(kind: SettingKind) -> int {
    match kind {
        SettingKind::Str => STR_BASE as int,
        SettingKind::Int => INT_BASE as int,
        SettingKind::Bool => BOOL_BASE as int,
    }
}

/// The kind a raw key's type bits name, if any.
pub open spec fn raw_kind(raw: int) -> Option<SettingKind> {
    if 0 <= raw < KIND_SPAN {
        Some(SettingKind::Str)
    } else if KIND_SPAN <= raw < 2 * KIND_SPAN {
        Some(SettingKind::Int)
    } else if 2 * KIND_SPAN <= raw < 3 * KIND_SPAN {
        Some(SettingKind::Bool)
    } else {
        None
    }
}

/// Whether `raw` is a key of a known setting: valid type bits and an
/// index below that type's setting count.
pub open spec fn valid_raw_key(raw: int) -> bool {
    match raw_kind(raw) {
        Some(k) => raw - kind_base(k) < kind_count(k),
        None => false,
    }
}

/// The key of the setting of `kind` at `index`.
pub open spec fn key_of(kind: SettingKind, index: int) -> int {
    kind_base(kind) + index
}

/// A validated setting key: every `SettingKey` names a known setting, so
/// it can be passed to the key-based [`SettingsPack`] methods freely.
/// Obtain one from [`setting_by_name`] or [`SettingKey::from_raw`].
#[derive(Clone, Copy, Debug, PartialEq, Eq, Hash, Structural)]
pub struct SettingKey(i32);

impl View for SettingKey {
    type V = i32;

    /// The raw key.
    closed spec fn view(&self) -> i32 {
        self.0
    }
}

impl SettingKey {
    #[verifier::type_invariant]
    spec fn known(self) -> bool {
        valid_raw_key(self.0 as int)
    }

    /// The value type of this setting.
    pub open spec fn spec_kind(self) -> SettingKind {
        raw_kind(self@ as int).unwrap()
    }

    /// The setting's index within its value type.
    pub open spec fn spec_index(self) -> int {
        self@ - kind_base(self.spec_kind())
    }

    /// Validates a raw key (type bits and index bounds).
    pub fn from_raw(raw: i32) -> (r: Option<SettingKey>)
        ensures
            valid_raw_key(raw as int) ==> (r matches Some(k) && k@ == raw),
            !valid_raw_key(raw as int) ==> r is None,
    {
        let ok = if 0 <= raw && raw < KIND_SPAN {
            raw - STR_BASE < NUM_STR as i32
        } else if KIND_SPAN <= raw && raw < 2 * KIND_SPAN {
            raw - INT_BASE < NUM_INT as i32
        } else if 2 * KIND_SPAN <= raw && raw < 3 * KIND_SPAN {
            raw - BOOL_BASE < NUM_BOOL as i32
        } else {
            false
        };
        if ok {
            Some(SettingKey(raw))
        } else {
            None
        }
    }

    /// The key of the setting of `kind` at `index`.
    pub fn at(kind: SettingKind, index: usize) -> (r: SettingKey)
        requires
            index < kind_count(kind),
        ensures
            r@ == key_of(kind, index as int),
            r.spec_kind() == kind,
            r.spec_index() == index,
    {
        match kind {
            SettingKind::Str => SettingKey(STR_BASE + index as i32),
            SettingKind::Int => SettingKey(INT_BASE + index as i32),
            SettingKind::Bool => SettingKey(BOOL_BASE + index as i32),
        }
    }

    /// The raw key.
    pub fn raw(self) -> (r: i32)
        ensures
            r == self@,
    {
        self.0
    }

    /// The value type of this setting.
    pub fn kind(self) -> (r: SettingKind)
        ensures
            r == self.spec_kind(),
    {
        proof {
            use_type_invariant(self);
        }
        if self.0 < KIND_SPAN {
            SettingKind::Str
        } else if self.0 < 2 * KIND_SPAN {
            SettingKind::Int
        } else {
            SettingKind::Bool
        }
    }

    /// The setting's index within its value type.
    pub fn index(self) -> (r: usize)
        ensures
            r == self.spec_index(),
            r < kind_count(self.spec_kind()),
    {
        proof {
            use_type_invariant(self);
        }
        if self.0 < KIND_SPAN {
            (self.0 - STR_BASE) as usize
        } else if self.0 < 2 * KIND_SPAN {
            (self.0 - INT_BASE) as usize
        } else {
            (self.0 - BOOL_BASE) as usize
        }
    }

    /// The setting's name, as libtorrent's name table gives it (see
    /// [`lookup_name`]).
    pub fn name(self) -> (r: Option<&'static str>)
        ensures
            r matches Some(n) && n@ == lookup_name(self.spec_kind(), self.spec_index()),
    {
        let kind = self.kind();
        let index = self.index();
        Some(lookup_name_at(kind, index))
    }
}

/// The index of `announce_to_all_tiers` among the boolean settings.
pub open spec fn tiers_index() -> int {
    ANNOUNCE_TO_ALL_TIERS - BOOL_BASE
}

/// The index of `announce_to_all_trackers` among the boolean settings.
pub open spec fn trackers_index() -> int {
    ANNOUNCE_TO_ALL_TRACKERS - BOOL_BASE
}

/// The name libtorrent's name table gives the setting of `kind` at
/// `index`: the listed name, except that `announce_to_all_tiers` and
/// `announce_to_all_trackers` carry each other's names there (libtorrent
/// lists the two in one order in its settings enum and in the other in
/// its name table; the keys, and so the typed setters, follow the enum).
pub open spec fn lookup_name(kind: SettingKind, index: int) -> Seq<char> {
    if kind == SettingKind::Bool && index == tiers_index() {
        spec_setting_name(kind, trackers_index())
    } else if kind == SettingKind::Bool && index == trackers_index() {
        spec_setting_name(kind, tiers_index())
    } else {
        spec_setting_name(kind, index)
    }
}

/// The name libtorrent's name table gives the setting of `kind` at
/// `index` (see [`lookup_name`]).
fn lookup_name_at(kind: SettingKind, index: usize) -> (r: &'static str)
    requires
        index < kind_count(kind),
    ensures
        r@ == lookup_name(kind, index as int),
{
    let tiers: usize = (ANNOUNCE_TO_ALL_TIERS - BOOL_BASE) as usize;
    let trackers: usize = (ANNOUNCE_TO_ALL_TRACKERS - BOOL_BASE) as usize;
    match kind {
        SettingKind::Bool => if index == tiers {
            setting_name_at(kind, trackers)
        } else if index == trackers {
            setting_name_at(kind, tiers)
        } else {
            setting_name_at(kind, index)
        },
        _ => setting_name_at(kind, index),
    }
}

/// The mathematical content of a [`SettingsPack`]: per value type, per
/// setting index, the value this pack holds (if any).
pub ghost struct PackView {
    pub strs: Seq<Option<Seq<char>>>,
    pub ints: Seq<Option<i32>>,
    pub bools: Seq<Option<bool>>,
}

impl PackView {
    /// One slot per known setting.
    pub open spec fn wf(self) -> bool {
        &&& self.strs.len() == NUM_STR
        &&& self.ints.len() == NUM_INT
        &&& self.bools.len() == NUM_BOOL
    }

    /// The pack holding nothing.
    pub open spec fn empty() -> PackView {
        PackView {
            strs: Seq::new(NUM_STR as nat, |i: int| None),
            ints: Seq::new(NUM_INT as nat, |i: int| None),
            bools: Seq::new(NUM_BOOL as nat, |i: int| None),
        }
    }

    /// The pack holding every setting at libtorrent's default.
    pub open spec fn defaults() -> PackView {
        PackView {
            strs: Seq::new(NUM_STR as nat, |i: int| Some(str_setting_default(i))),
            ints: Seq::new(NUM_INT as nat, |i: int| Some(int_setting_default(i))),
            bools: Seq::new(NUM_BOOL as nat, |i: int| Some(bool_setting_default(i))),
        }
    }

    /// The string setting with key `raw`, as held here.
    pub open spec fn str_at(self, raw: i32) -> Option<Seq<char>> {
        self.strs[raw - STR_BASE]
    }

    /// The integer setting with key `raw`, as held here.
    pub open spec fn int_at(self, raw: i32) -> Option<i32> {
        self.ints[raw - INT_BASE]
    }

    /// The boolean setting with key `raw`, as held here.
    pub open spec fn bool_at(self, raw: i32) -> Option<bool> {
        self.bools[raw - BOOL_BASE]
    }

    /// This pack with the string setting `raw` set to `v`.
    pub open spec fn with_str(self, raw: i32, v: Seq<char>) -> PackView {
        PackView { strs: self.strs.update(raw - STR_BASE, Some(v)), ..self }
    }

    /// This pack with the integer setting `raw` set to `v`.
    pub open spec fn with_int(self, raw: i32, v: i32) -> PackView {
        PackView { ints: self.ints.update(raw - INT_BASE, Some(v)), ..self }
    }

    /// This pack with the boolean setting `raw` set to `v`.
    pub open spec fn with_bool(self, raw: i32, v: bool) -> PackView {
        PackView { bools: self.bools.update(raw - BOOL_BASE, Some(v)), ..self }
    }

    /// Whether the setting `key` is held here.
    pub open spec fn has(self, key: SettingKey) -> bool {
        match key.spec_kind() {
            SettingKind::Str => self.strs[key.spec_index()] is Some,
            SettingKind::Int => self.ints[key.spec_index()] is Some,
            SettingKind::Bool => self.bools[key.spec_index()] is Some,
        }
    }

    /// This pack without the setting `key`.
    pub open spec fn without(self, key: SettingKey) -> PackView {
        match key.spec_kind() {
            SettingKind::Str => PackView { strs: self.strs.update(key.spec_index(), None), ..self },
            SettingKind::Int => PackView { ints: self.ints.update(key.spec_index(), None), ..self },
            SettingKind::Bool => PackView {
                bools: self.bools.update(key.spec_index(), None),
                ..self
            },
        }
    }

    /// This pack with the setting `key` at libtorrent's default.
    pub open spec fn with_default(self, key: SettingKey) -> PackView {
        let i = key.spec_index();
        match key.spec_kind() {
            SettingKind::Str => PackView {
                strs: self.strs.update(i, Some(str_setting_default(i))),
                ..self
            },
            SettingKind::Int => PackView {
                ints: self.ints.update(i, Some(int_setting_default(i))),
                ..self
            },
            SettingKind::Bool => PackView {
                bools: self.bools.update(i, Some(bool_setting_default(i))),
                ..self
            },
        }
    }

    /// This pack with every value present in `delta` copied over it.
    pub open spec fn merged(self, delta: PackView) -> PackView {
        PackView {
            strs: Seq::new(
                self.strs.len(),
                |i: int|
                    if delta.strs[i] is Some {
                        delta.strs[i]
                    } else {
                        self.strs[i]
                    },
            ),
            ints: Seq::new(
                self.ints.len(),
                |i: int|
                    if delta.ints[i] is Some {
                        delta.ints[i]
                    } else {
                        self.ints[i]
                    },
            ),
            bools: Seq::new(
                self.bools.len(),
                |i: int|
                    if delta.bools[i] is Some {
                        delta.bools[i]
                    } else {
                        self.bools[i]
                    },
            ),
        }
    }
}

/// The view of an optional string.
pub open spec fn opt_str_view(s: Option<String>) -> Option<Seq<char>> {
    match s {
        Some(s) => Some(s@),
        None => None,
    }
}

/// A set of libtorrent settings (delta semantics; see the module docs).
#[derive(Clone, Debug)]
pub struct SettingsPack {
    strs: Vec<Option<String>>,
    ints: Vec<Option<i32>>,
    bools: Vec<Option<bool>>,
}

impl View for SettingsPack {
    type V = PackView;

    closed spec fn view(&self) -> PackView {
        PackView {
            strs: Seq::new(self.strs@.len(), |i: int| opt_str_view(self.strs@[i])),
            ints: self.ints@,
            bools: self.bools@,
        }
    }
}

impl SettingsPack {
    /// One slot per known setting.
    pub open spec fn wf(&self) -> bool {
        self@.wf()
    }

    /// An empty pack (no settings explicitly set).
    pub fn new() -> (r: SettingsPack)
        ensures
            r.wf(),
            r@ == PackView::empty(),
    {
        let mut strs: Vec<Option<String>> = Vec::new();
        let mut ints: Vec<Option<i32>> = Vec::new();
        let mut bools: Vec<Option<bool>> = Vec::new();
        let mut i: usize = 0;
        while i < NUM_STR
            invariant
                i <= NUM_STR,
                strs@.len() == i,
                forall|j: int| 0 <= j < i ==> strs@[j] is None,
            decreases NUM_STR - i,
        {
            strs.push(None);
            i += 1;
        }
        i = 0;
        while i < NUM_INT
            invariant
                i <= NUM_INT,
                ints@.len() == i,
                forall|j: int| 0 <= j < i ==> ints@[j] is None,
            decreases NUM_INT - i,
        {
            ints.push(None);
            i += 1;
        }
        i = 0;
        while i < NUM_BOOL
            invariant
                i <= NUM_BOOL,
                bools@.len() == i,
                forall|j: int| 0 <= j < i ==> bools@[j] is None,
            decreases NUM_BOOL - i,
        {
            bools.push(None);
            i += 1;
        }
        let r = SettingsPack { strs, ints, bools };
        proof {
            assert(r@.strs =~= PackView::empty().strs);
            assert(r@.ints =~= PackView::empty().ints);
            assert(r@.bools =~= PackView::empty().bools);
        }
        r
    }

    /// A pack holding libtorrent's default value for every setting.
    pub fn defaults() -> (r: SettingsPack)
        ensures
            r.wf(),
            r@ == PackView::defaults(),
    {
        let mut strs: Vec<Option<String>> = Vec::new();
        let mut ints: Vec<Option<i32>> = Vec::new();
        let mut bools: Vec<Option<bool>> = Vec::new();
        let mut i: usize = 0;
        while i < NUM_STR
            invariant
                i <= NUM_STR,
                strs@.len() == i,
                forall|j: int| 0 <= j < i ==> opt_str_view(#[trigger] strs@[j]) == Some(str_setting_default(j)),
            decreases NUM_STR - i,
        {
            strs.push(Some(string_of(str_default(i))));
            i += 1;
        }
        i = 0;
        while i < NUM_INT
            invariant
                i <= NUM_INT,
                ints@.len() == i,
                forall|j: int| 0 <= j < i ==> ints@[j] == Some(int_setting_default(j)),
            decreases NUM_INT - i,
        {
            ints.push(Some(int_default(i)));
            i += 1;
        }
        i = 0;
        while i < NUM_BOOL
            invariant
                i <= NUM_BOOL,
                bools@.len() == i,
                forall|j: int| 0 <= j < i ==> bools@[j] == Some(bool_setting_default(j)),
            decreases NUM_BOOL - i,
        {
            bools.push(Some(bool_default(i)));
            i += 1;
        }
        let r = SettingsPack { strs, ints, bools };
        proof {
            assert(r@.strs =~= PackView::defaults().strs);
            assert(r@.ints =~= PackView::defaults().ints);
            assert(r@.bools =~= PackView::defaults().bools);
        }
        r
    }

    /// An independent copy of this pack.
    pub fn duplicate(&self) -> (r: SettingsPack)
        ensures
            r@ == self@,
    {
        let mut strs: Vec<Option<String>> = Vec::new();
        let mut i: usize = 0;
        while i < self.strs.len()
            invariant
                i <= self.strs@.len(),
                strs@.len() == i,
                forall|j: int| 0 <= j < i ==> opt_str_view(#[trigger] strs@[j]) == opt_str_view(self.strs@[j]),
            decreases self.strs.len() - i,
        {
            let v = match &self.strs[i] {
                Some(s) => Some(string_of(s.as_str())),
                None => None,
            };
            strs.push(v);
            i += 1;
        }
        let mut ints: Vec<Option<i32>> = Vec::new();
        i = 0;
        while i < self.ints.len()
            invariant
                i <= self.ints@.len(),
                ints@ == self.ints@.subrange(0, i as int),
            decreases self.ints.len() - i,
        {
            ints.push(self.ints[i]);
            i += 1;
            proof {
                assert(ints@ =~= self.ints@.subrange(0, i as int));
            }
        }
        let mut bools: Vec<Option<bool>> = Vec::new();
        i = 0;
        while i < self.bools.len()
            invariant
                i <= self.bools@.len(),
                bools@ == self.bools@.subrange(0, i as int),
            decreases self.bools.len() - i,
        {
            bools.push(self.bools[i]);
            i += 1;
            proof {
                assert(bools@ =~= self.bools@.subrange(0, i as int));
            }
        }
        let r = SettingsPack { strs, ints, bools };
        proof {
            assert(ints@ =~= self.ints@.subrange(0, self.ints@.len() as int));
            assert(bools@ =~= self.bools@.subrange(0, self.bools@.len() as int));
            assert(r@.strs =~= self@.strs);
            assert(r@.ints =~= self@.ints);
            assert(r@.bools =~= self@.bools);
        }
        r
    }

    /// Sets the string setting of index `i`.
    fn put_str_index(&mut self, i: usize, value: &str)
        requires
            old(self).wf(),
            i < NUM_STR,
        ensures
            final(self).wf(),
            final(self)@ == (PackView { strs: old(self)@.strs.update(i as int, Some(value@)), ..old(self)@ }),
    {
        self.strs.set(i, Some(string_of(value)));
        proof {
            assert(self@.strs =~= old(self)@.strs.update(i as int, Some(value@)));
        }
    }

    /// Sets the integer setting of index `i`.
    fn put_int_index(&mut self, i: usize, value: i32)
        requires
            old(self).wf(),
            i < NUM_INT,
        ensures
            final(self).wf(),
            final(self)@ == (PackView { ints: old(self)@.ints.update(i as int, Some(value)), ..old(self)@ }),
    {
        self.ints.set(i, Some(value));
        proof {
            assert(self@.strs =~= old(self)@.strs);
        }
    }

    /// Sets the boolean setting of index `i`.
    fn put_bool_index(&mut self, i: usize, value: bool)
        requires
            old(self).wf(),
            i < NUM_BOOL,
        ensures
            final(self).wf(),
            final(self)@ == (PackView { bools: old(self)@.bools.update(i as int, Some(value)), ..old(self)@ }),
    {
        self.bools.set(i, Some(value));
        proof {
            assert(self@.strs =~= old(self)@.strs);
        }
    }

    /// Sets the string setting with key `raw`.
    fn put_str(&mut self, raw: i32, value: &str)
        requires
            old(self).wf(),
            STR_BASE <= raw < STR_BASE + NUM_STR,
        ensures
            final(self).wf(),
            final(self)@ == old(self)@.with_str(raw, value@),
    {
        self.put_str_index((raw - STR_BASE) as usize, value);
    }

    /// Sets the integer setting with key `raw`.
    fn put_int(&mut self, raw: i32, value: i32)
        requires
            old(self).wf(),
            INT_BASE <= raw < INT_BASE + NUM_INT,
        ensures
            final(self).wf(),
            final(self)@ == old(self)@.with_int(raw, value),
    {
        self.put_int_index((raw - INT_BASE) as usize, value);
    }

    /// Sets the boolean setting with key `raw`.
    fn put_bool(&mut self, raw: i32, value: bool)
        requires
            old(self).wf(),
            BOOL_BASE <= raw < BOOL_BASE + NUM_BOOL,
        ensures
            final(self).wf(),
            final(self)@ == old(self)@.with_bool(raw, value),
    {
        self.put_bool_index((raw - BOOL_BASE) as usize, value);
    }

    /// The string setting with key `raw`, if held.
    fn str_at(&self, raw: i32) -> (r: Option<String>)
        requires
            self.wf(),
            STR_BASE <= raw < STR_BASE + NUM_STR,
        ensures
            opt_str_view(r) == self@.str_at(raw),
    {
        match &self.strs[(raw - STR_BASE) as usize] {
            Some(s) => Some(string_of(s.as_str())),
            None => None,
        }
    }

    /// The integer setting with key `raw`, if held.
    fn int_at(&self, raw: i32) -> (r: Option<i32>)
        requires
            self.wf(),
            INT_BASE <= raw < INT_BASE + NUM_INT,
        ensures
            r == self@.int_at(raw),
    {
        self.ints[(raw - INT_BASE) as usize]
    }

    /// The boolean setting with key `raw`, if held.
    fn bool_at(&self, raw: i32) -> (r: Option<bool>)
        requires
            self.wf(),
            BOOL_BASE <= raw < BOOL_BASE + NUM_BOOL,
        ensures
            r == self@.bool_at(raw),
    {
        self.bools[(raw - BOOL_BASE) as usize]
    }

    /// Sets a string setting by key. Ignored if `key` is not a string
    /// setting.
    pub fn set_str(&mut self, key: SettingKey, value: &str)
        requires
            old(self).wf(),
        ensures
            final(self).wf(),
            key.spec_kind() == SettingKind::Str ==> final(self)@ == old(self)@.with_str(key@, value@),
            key.spec_kind() != SettingKind::Str ==> final(self)@ == old(self)@,
    {
        proof {
            use_type_invariant(&key);
        }
        if key.kind() == SettingKind::Str {
            self.put_str(key.raw(), value);
        }
    }

    /// Sets an integer setting by key. Ignored if `key` is not an integer
    /// setting.
    pub fn set_int(&mut self, key: SettingKey, value: i32)
        requires
            old(self).wf(),
        ensures
            final(self).wf(),
            key.spec_kind() == SettingKind::Int ==> final(self)@ == old(self)@.with_int(key@, value),
            key.spec_kind() != SettingKind::Int ==> final(self)@ == old(self)@,
    {
        proof {
            use_type_invariant(&key);
        }
        if key.kind() == SettingKind::Int {
            self.put_int(key.raw(), value);
        }
    }

    /// Sets a boolean setting by key. Ignored if `key` is not a boolean
    /// setting.
    pub fn set_bool(&mut self, key: SettingKey, value: bool)
        requires
            old(self).wf(),
        ensures
            final(self).wf(),
            key.spec_kind() == SettingKind::Bool ==> final(self)@ == old(self)@.with_bool(key@, value),
            key.spec_kind() != SettingKind::Bool ==> final(self)@ == old(self)@,
    {
        proof {
            use_type_invariant(&key);
        }
        if key.kind() == SettingKind::Bool {
            self.put_bool(key.raw(), value);
        }
    }

    /// Reads a string setting if this pack contains it (`None` for a key
    /// of another type).
    pub fn get_str(&self, key: SettingKey) -> (r: Option<String>)
        requires
            self.wf(),
        ensures
            key.spec_kind() == SettingKind::Str ==> opt_str_view(r) == self@.str_at(key@),
            key.spec_kind() != SettingKind::Str ==> r is None,
    {
        proof {
            use_type_invariant(&key);
        }
        if key.kind() == SettingKind::Str {
            self.str_at(key.raw())
        } else {
            None
        }
    }

    /// Reads an integer setting if this pack contains it (`None` for a key
    /// of another type).
    pub fn get_int(&self, key: SettingKey) -> (r: Option<i32>)
        requires
            self.wf(),
        ensures
            key.spec_kind() == SettingKind::Int ==> r == self@.int_at(key@),
            key.spec_kind() != SettingKind::Int ==> r is None,
    {
        proof {
            use_type_invariant(&key);
        }
        if key.kind() == SettingKind::Int {
            self.int_at(key.raw())
        } else {
            None
        }
    }

    /// Reads a boolean setting if this pack contains it (`None` for a key
    /// of another type).
    pub fn get_bool(&self, key: SettingKey) -> (r: Option<bool>)
        requires
            self.wf(),
        ensures
            key.spec_kind() == SettingKind::Bool ==> r == self@.bool_at(key@),
            key.spec_kind() != SettingKind::Bool ==> r is None,
    {
        proof {
            use_type_invariant(&key);
        }
        if key.kind() == SettingKind::Bool {
            self.bool_at(key.raw())
        } else {
            None
        }
    }

    /// Whether this pack explicitly contains `key`.
    pub fn has(&self, key: SettingKey) -> (r: bool)
        requires
            self.wf(),
        ensures
            r == self@.has(key),
    {
        proof {
            use_type_invariant(&key);
        }
        let i = key.index();
        match key.kind() {
            SettingKind::Str => self.strs[i].is_some(),
            SettingKind::Int => self.ints[i].is_some(),
            SettingKind::Bool => self.bools[i].is_some(),
        }
    }

    /// Removes every setting from the pack.
    pub fn clear(&mut self)
        requires
            old(self).wf(),
        ensures
            final(self).wf(),
            final(self)@ == PackView::empty(),
    {
        *self = SettingsPack::new();
    }

    /// Removes one setting from the pack.
    pub fn clear_key(&mut self, key: SettingKey)
        requires
            old(self).wf(),
        ensures
            final(self).wf(),
            final(self)@ == old(self)@.without(key),
    {
        proof {
            use_type_invariant(&key);
        }
        let i = key.index();
        match key.kind() {
            SettingKind::Str => {
                self.strs.set(i, None);
            },
            SettingKind::Int => {
                self.ints.set(i, None);
            },
            SettingKind::Bool => {
                self.bools.set(i, None);
            },
        }
        proof {
            assert(self@.strs =~= old(self)@.without(key).strs);
            assert(self@.ints =~= old(self)@.without(key).ints);
            assert(self@.bools =~= old(self)@.without(key).bools);
        }
    }

    /// Copies every value present in `delta` into this pack; settings
    /// absent from `delta` keep their values here.
    pub fn apply(&mut self, delta: &SettingsPack)
        requires
            old(self).wf(),
            delta.wf(),
        ensures
            final(self).wf(),
            final(self)@ == old(self)@.merged(delta@),
    {
        let mut i: usize = 0;
        while i < NUM_STR
            invariant
                i <= NUM_STR,
                self.wf(),
                old(self).wf(),
                delta.wf(),
                self@.ints == old(self)@.ints,
                self@.bools == old(self)@.bools,
                forall|j: int| 0 <= j < i ==> self@.strs[j] == old(self)@.merged(delta@).strs[j],
                forall|j: int| i <= j < NUM_STR ==> self@.strs[j] == old(self)@.strs[j],
            decreases NUM_STR - i,
        {
            match &delta.strs[i] {
                Some(s) => {
                    let v = string_of(s.as_str());
                    self.put_str_index(i, v.as_str());
                },
                None => {},
            }
            proof {
                assert(self@.strs[i as int] == old(self)@.merged(delta@).strs[i as int]);
            }
            i += 1;
        }
        i = 0;
        while i < NUM_INT
            invariant
                i <= NUM_INT,
                self.wf(),
                old(self).wf(),
                delta.wf(),
                self@.strs == old(self)@.merged(delta@).strs,
                self@.bools == old(self)@.bools,
                forall|j: int| 0 <= j < i ==> self@.ints[j] == old(self)@.merged(delta@).ints[j],
                forall|j: int| i <= j < NUM_INT ==> self@.ints[j] == old(self)@.ints[j],
            decreases NUM_INT - i,
        {
            match delta.ints[i] {
                Some(v) => {
                    self.put_int_index(i, v);
                },
                None => {},
            }
            proof {
                assert(self@.ints[i as int] == old(self)@.merged(delta@).ints[i as int]);
            }
            i += 1;
        }
        i = 0;
        while i < NUM_BOOL
            invariant
                i <= NUM_BOOL,
                self.wf(),
                old(self).wf(),
                delta.wf(),
                self@.strs == old(self)@.merged(delta@).strs,
                self@.ints == old(self)@.merged(delta@).ints,
                forall|j: int| 0 <= j < i ==> self@.bools[j] == old(self)@.merged(delta@).bools[j],
                forall|j: int| i <= j < NUM_BOOL ==> self@.bools[j] == old(self)@.bools[j],
            decreases NUM_BOOL - i,
        {
            match delta.bools[i] {
                Some(v) => {
                    self.put_bool_index(i, v);
                },
                None => {},
            }
            proof {
                assert(self@.bools[i as int] == old(self)@.merged(delta@).bools[i as int]);
            }
            i += 1;
        }
        proof {
            assert(self@.bools =~= old(self)@.merged(delta@).bools);
            assert(self@.ints =~= old(self)@.merged(delta@).ints);
            assert(self@.strs =~= old(self)@.merged(delta@).strs);
        }
    }

    /// Sets `key` to libtorrent's default value for that setting.
    pub fn set_default(&mut self, key: SettingKey)
        requires
            old(self).wf(),
        ensures
            final(self).wf(),
            final(self)@ == old(self)@.with_default(key),
    {
        proof {
            use_type_invariant(&key);
        }
        let i = key.index();
        match key.kind() {
            SettingKind::Str => self.put_str_index(i, str_default(i)),
            SettingKind::Int => self.put_int_index(i, int_default(i)),
            SettingKind::Bool => self.put_bool_index(i, bool_default(i)),
        }
    }
}

impl Default for SettingsPack {
    fn default() -> (r: SettingsPack)
        ensures
            r.wf(),
            r@ == PackView::empty(),
    {
        SettingsPack::new()
    }
}

/// The setting of `kind` at `index`, as `all_settings` lists it.
pub open spec fn setting_entry(kind: SettingKind, index: int) -> (i32, Seq<char>, SettingKind) {
    ((kind_base(kind) + index) as i32, spec_setting_name(kind, index), kind)
}

/// The order `all_settings` lists the settings in: string settings, then
/// integer settings, then boolean settings, each by index.
pub open spec fn listed_setting(i: int) -> (i32, Seq<char>, SettingKind) {
    if i < NUM_STR {
        setting_entry(SettingKind::Str, i)
    } else if i < NUM_STR + NUM_INT {
        setting_entry(SettingKind::Int, i - NUM_STR)
    } else {
        setting_entry(SettingKind::Bool, i - NUM_STR - NUM_INT)
    }
}

/// Enumerates every setting known to these bindings, as `(key, name,
/// kind)` tuples: the string settings, then the integer settings, then the
/// boolean settings, each in index order.
pub fn all_settings() -> (r: Vec<(SettingKey, &'static str, SettingKind)>)
    ensures
        r@.len() == NUM_STR + NUM_INT + NUM_BOOL,
        forall|i: int|
            0 <= i < r@.len() ==> ((#[trigger] r@[i]).0@, r@[i].1@, r@[i].2) == listed_setting(i),
{
    let mut out: Vec<(SettingKey, &'static str, SettingKind)> = Vec::new();
    let mut i: usize = 0;
    while i < NUM_STR
        invariant
            i <= NUM_STR,
            out@.len() == i,
            forall|j: int|
                0 <= j < out@.len() ==> ((#[trigger] out@[j]).0@, out@[j].1@, out@[j].2)
                    == listed_setting(j),
        decreases NUM_STR - i,
    {
        let key = SettingKey::at(SettingKind::Str, i);
        out.push((key, setting_name_at(SettingKind::Str, i), SettingKind::Str));
        i += 1;
    }
    i = 0;
    while i < NUM_INT
        invariant
            i <= NUM_INT,
            out@.len() == NUM_STR + i,
            forall|j: int|
                0 <= j < out@.len() ==> ((#[trigger] out@[j]).0@, out@[j].1@, out@[j].2)
                    == listed_setting(j),
        decreases NUM_INT - i,
    {
        let key = SettingKey::at(SettingKind::Int, i);
        out.push((key, setting_name_at(SettingKind::Int, i), SettingKind::Int));
        i += 1;
    }
    i = 0;
    while i < NUM_BOOL
        invariant
            i <= NUM_BOOL,
            out@.len() == NUM_STR + NUM_INT + i,
            forall|j: int|
                0 <= j < out@.len() ==> ((#[trigger] out@[j]).0@, out@[j].1@, out@[j].2)
                    == listed_setting(j),
        decreases NUM_BOOL - i,
    {
        let key = SettingKey::at(SettingKind::Bool, i);
        out.push((key, setting_name_at(SettingKind::Bool, i), SettingKind::Bool));
        i += 1;
    }
    out
}

/// Whether two strings are equal, character by character.
fn str_equal(a: &str, b: &str) -> (r: bool)
    ensures
        r == (a@ == b@),
{
    let x = crate::text::to_chars(a);
    let y = crate::text::to_chars(b);
    if x.len() != y.len() {
        return false;
    }
    let mut i: usize = 0;
    while i < x.len()
        invariant
            x@ == a@,
            y@ == b@,
            x@.len() == y@.len(),
            i <= x@.len(),
            forall|j: int| 0 <= j < i ==> x@[j] == y@[j],
        decreases x.len() - i,
    {
        if x[i] != y[i] {
            return false;
        }
        i += 1;
    }
    proof {
        assert(x@ =~= y@);
    }
    true
}

/// Whether the setting of `kind` at `index` is the first of its kind that
/// libtorrent's name table names `name`.
pub open spec fn first_named(kind: SettingKind, index: int, name: Seq<char>) -> bool {
    &&& 0 <= index < kind_count(kind)
    &&& lookup_name(kind, index) == name
    &&& forall|j: int| 0 <= j < index ==> lookup_name(kind, j) != name
}

/// Whether libtorrent's name table names some setting of `kind` `name`.
pub open spec fn some_named(kind: SettingKind, name: Seq<char>) -> bool {
    exists|j: int| 0 <= j < kind_count(kind) && lookup_name(kind, j) == name
}

/// The index of the first setting of `kind` named `name`, if any.
fn find_in_kind(kind: SettingKind, name: &str) -> (r: Option<usize>)
    ensures
        r matches Some(i) ==> first_named(kind, i as int, name@),
        r is None ==> !some_named(kind, name@),
{
    let n: usize = match kind {
        SettingKind::Str => NUM_STR,
        SettingKind::Int => NUM_INT,
        SettingKind::Bool => NUM_BOOL,
    };
    let mut i: usize = 0;
    while i < n
        invariant
            n == kind_count(kind),
            i <= n,
            forall|j: int| 0 <= j < i ==> lookup_name(kind, j) != name@,
        decreases n - i,
    {
        if str_equal(lookup_name_at(kind, i), name) {
            return Some(i);
        }
        i += 1;
    }
    None
}

/// The key `setting_by_name` resolves `name` to: the first string
/// setting of that name, else the first integer setting, else the first
/// boolean setting; the empty name resolves to nothing.
pub open spec fn resolves_to(name: Seq<char>, key: i32) -> bool {
    &&& name.len() > 0
    &&& {
        ||| (exists|i: int| first_named(SettingKind::Str, i, name) && key == key_of(SettingKind::Str, i))
        ||| (!some_named(SettingKind::Str, name) && exists|i: int|
            first_named(SettingKind::Int, i, name) && key == key_of(SettingKind::Int, i))
        ||| (!some_named(SettingKind::Str, name) && !some_named(SettingKind::Int, name) && exists|
            i: int,
        | first_named(SettingKind::Bool, i, name) && key == key_of(SettingKind::Bool, i))
    }
}

/// Resolves a setting name (e.g. `"upload_rate_limit"`) to its key.
pub fn setting_by_name(name: &str) -> (r: Option<SettingKey>)
    ensures
        r matches Some(k) ==> resolves_to(name@, k@),
        r is None ==> (name@.len() == 0 || (!some_named(SettingKind::Str, name@) && !some_named(
            SettingKind::Int,
            name@,
        ) && !some_named(SettingKind::Bool, name@))),
{
    if name.is_empty() {
        return None;
    }
    match find_in_kind(SettingKind::Str, name) {
        Some(i) => {
            return Some(SettingKey::at(SettingKind::Str, i));
        },
        None => {},
    }
    match find_in_kind(SettingKind::Int, name) {
        Some(i) => {
            return Some(SettingKey::at(SettingKind::Int, i));
        },
        None => {},
    }
    match find_in_kind(SettingKind::Bool, name) {
        Some(i) => Some(SettingKey::at(SettingKind::Bool, i)),
        None => None,
    }
}

} // verus!
