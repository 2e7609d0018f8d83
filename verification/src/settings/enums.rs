//! Value enums for libtorrent's enum-typed integer settings, with the
//! integer each variant is stored as.

use vstd::prelude::*;

verus! {

/// Values for the `mmap_write_mode`-family settings (`lt::settings_pack::mmap_write_mode_t`).
#[derive(Clone, Copy, Debug, PartialEq, Eq, Hash, Structural)]
pub enum MmapWriteMode {
    /// Never mmap for writes; always use normal write calls.
    AlwaysPwrite,
    /// Prefer memory-mapped writes (for large files where it makes sense).
    AlwaysMmapWrite,
    /// Choose per save path based on the kind of storage behind it.
    AutoMmapWrite,
}

/// The stored value of a [`MmapWriteMode`].
pub open spec fn mmap_write_mode_code(v: MmapWriteMode) -> i32 {
    match v {
        MmapWriteMode::AlwaysPwrite => 0,
        MmapWriteMode::AlwaysMmapWrite => 1,
        MmapWriteMode::AutoMmapWrite => 2,
    }
}
/// Each [`MmapWriteMode`] is stored as libtorrent's constant for it (`AlwaysPwrite` as 0, `AlwaysMmapWrite` as 1, `AutoMmapWrite` as 2),
/// and each of those constants reads back as that variant.
pub proof fn lemma_mmap_write_mode_codes()
    ensures
        mmap_write_mode_code(MmapWriteMode::AlwaysPwrite) == 0,
        mmap_write_mode_code(MmapWriteMode::AlwaysMmapWrite) == 1,
        mmap_write_mode_code(MmapWriteMode::AutoMmapWrite) == 2,
        mmap_write_mode_of_code(0) == Some(MmapWriteMode::AlwaysPwrite),
        mmap_write_mode_of_code(1) == Some(MmapWriteMode::AlwaysMmapWrite),
        mmap_write_mode_of_code(2) == Some(MmapWriteMode::AutoMmapWrite),
{
}


/// The [`MmapWriteMode`] a stored value stands for, if any.
pub open spec fn mmap_write_mode_of_code(raw: i32) -> Option<MmapWriteMode> {
    if raw == 0 {
        Some(MmapWriteMode::AlwaysPwrite)
    } else if raw == 1 {
        Some(MmapWriteMode::AlwaysMmapWrite)
    } else if raw == 2 {
        Some(MmapWriteMode::AutoMmapWrite)
    } else {
        None
    }
}

impl MmapWriteMode {
    /// The stored value.
    pub fn to_raw(self) -> (r: i32)
        ensures
            r == mmap_write_mode_code(self),
    {
        match self {
            MmapWriteMode::AlwaysPwrite => 0,
            MmapWriteMode::AlwaysMmapWrite => 1,
            MmapWriteMode::AutoMmapWrite => 2,
        }
    }

    /// The variant a stored value stands for; `None` for values these
    /// bindings don't know.
    pub fn from_raw(raw: i32) -> (r: Option<MmapWriteMode>)
        ensures
            r == mmap_write_mode_of_code(raw),
    {
        if raw == 0 {
            Some(MmapWriteMode::AlwaysPwrite)
        } else if raw == 1 {
            Some(MmapWriteMode::AlwaysMmapWrite)
        } else if raw == 2 {
            Some(MmapWriteMode::AutoMmapWrite)
        } else {
            None
        }
    }
}

/// Every [`MmapWriteMode`] reads back from the value it is stored as.
pub proof fn lemma_mmap_write_mode_round_trip(v: MmapWriteMode)
    ensures
        mmap_write_mode_of_code(mmap_write_mode_code(v)) == Some(v),
{
}

/// Values for the `suggest_mode`-family settings (`lt::settings_pack::suggest_mode_t`).
#[derive(Clone, Copy, Debug, PartialEq, Eq, Hash, Structural)]
pub enum SuggestMode {
    /// Send no suggest messages.
    NoPieceSuggestions,
    /// Suggest the pieces currently in the read cache, hinting peers toward cache-friendly piece selection.
    SuggestReadCache,
}

/// The stored value of a [`SuggestMode`].
pub open spec fn suggest_mode_code(v: SuggestMode) -> i32 {
    match v {
        SuggestMode::NoPieceSuggestions => 0,
        SuggestMode::SuggestReadCache => 1,
    }
}
/// Each [`SuggestMode`] is stored as libtorrent's constant for it (`NoPieceSuggestions` as 0, `SuggestReadCache` as 1),
/// and each of those constants reads back as that variant.
pub proof fn lemma_suggest_mode_codes()
    ensures
        suggest_mode_code(SuggestMode::NoPieceSuggestions) == 0,
        suggest_mode_code(SuggestMode::SuggestReadCache) == 1,
        suggest_mode_of_code(0) == Some(SuggestMode::NoPieceSuggestions),
        suggest_mode_of_code(1) == Some(SuggestMode::SuggestReadCache),
{
}


/// The [`SuggestMode`] a stored value stands for, if any.
pub open spec fn suggest_mode_of_code(raw: i32) -> Option<SuggestMode> {
    if raw == 0 {
        Some(SuggestMode::NoPieceSuggestions)
    } else if raw == 1 {
        Some(SuggestMode::SuggestReadCache)
    } else {
        None
    }
}

impl SuggestMode {
    /// The stored value.
    pub fn to_raw(self) -> (r: i32)
        ensures
            r == suggest_mode_code(self),
    {
        match self {
            SuggestMode::NoPieceSuggestions => 0,
            SuggestMode::SuggestReadCache => 1,
        }
    }

    /// The variant a stored value stands for; `None` for values these
    /// bindings don't know.
    pub fn from_raw(raw: i32) -> (r: Option<SuggestMode>)
        ensures
            r == suggest_mode_of_code(raw),
    {
        if raw == 0 {
            Some(SuggestMode::NoPieceSuggestions)
        } else if raw == 1 {
            Some(SuggestMode::SuggestReadCache)
        } else {
            None
        }
    }
}

/// Every [`SuggestMode`] reads back from the value it is stored as.
pub proof fn lemma_suggest_mode_round_trip(v: SuggestMode)
    ensures
        suggest_mode_of_code(suggest_mode_code(v)) == Some(v),
{
}

/// Values for the `choking_algorithm`-family settings (`lt::settings_pack::choking_algorithm_t`).
#[derive(Clone, Copy, Debug, PartialEq, Eq, Hash, Structural)]
pub enum ChokingAlgorithm {
    /// The traditional choker with a fixed number of unchoke slots (`unchoke_slots_limit`).
    FixedSlotsChoker,
    /// Opens unchoke slots based on the upload rate achieved to peers, with each additional slot requiring a higher marginal rate; the initial threshold is `rate_choker_initial_threshold`.
    RateBasedChoker,
}

/// The stored value of a [`ChokingAlgorithm`].
pub open spec fn choking_algorithm_code(v: ChokingAlgorithm) -> i32 {
    match v {
        ChokingAlgorithm::FixedSlotsChoker => 0,
        ChokingAlgorithm::RateBasedChoker => 2,
    }
}
/// Each [`ChokingAlgorithm`] is stored as libtorrent's constant for it (`FixedSlotsChoker` as 0, `RateBasedChoker` as 2),
/// and each of those constants reads back as that variant.
pub proof fn lemma_choking_algorithm_codes()
    ensures
        choking_algorithm_code(ChokingAlgorithm::FixedSlotsChoker) == 0,
        choking_algorithm_code(ChokingAlgorithm::RateBasedChoker) == 2,
        choking_algorithm_of_code(0) == Some(ChokingAlgorithm::FixedSlotsChoker),
        choking_algorithm_of_code(2) == Some(ChokingAlgorithm::RateBasedChoker),
{
}


/// The [`ChokingAlgorithm`] a stored value stands for, if any.
pub open spec fn choking_algorithm_of_code(raw: i32) -> Option<ChokingAlgorithm> {
    if raw == 0 {
        Some(ChokingAlgorithm::FixedSlotsChoker)
    } else if raw == 2 {
        Some(ChokingAlgorithm::RateBasedChoker)
    } else {
        None
    }
}

impl ChokingAlgorithm {
    /// The stored value.
    pub fn to_raw(self) -> (r: i32)
        ensures
            r == choking_algorithm_code(self),
    {
        match self {
            ChokingAlgorithm::FixedSlotsChoker => 0,
            ChokingAlgorithm::RateBasedChoker => 2,
        }
    }

    /// The variant a stored value stands for; `None` for values these
    /// bindings don't know.
    pub fn from_raw(raw: i32) -> (r: Option<ChokingAlgorithm>)
        ensures
            r == choking_algorithm_of_code(raw),
    {
        if raw == 0 {
            Some(ChokingAlgorithm::FixedSlotsChoker)
        } else if raw == 2 {
            Some(ChokingAlgorithm::RateBasedChoker)
        } else {
            None
        }
    }
}

/// Every [`ChokingAlgorithm`] reads back from the value it is stored as.
pub proof fn lemma_choking_algorithm_round_trip(v: ChokingAlgorithm)
    ensures
        choking_algorithm_of_code(choking_algorithm_code(v)) == Some(v),
{
}

/// Values for the `seed_choking_algorithm`-family settings (`lt::settings_pack::seed_choking_algorithm_t`).
#[derive(Clone, Copy, Debug, PartialEq, Eq, Hash, Structural)]
pub enum SeedChokingAlgorithm {
    /// Round-robins the unchoked peers, distributing upload bandwidth uniformly and fairly.
    RoundRobin,
    /// Unchokes the peers we can send to fastest, better utilizing the available capacity.
    FastestUpload,
    /// Prioritizes peers that just started or are about to finish, forcing mid-download peers to trade with each other.
    AntiLeech,
}

/// The stored value of a [`SeedChokingAlgorithm`].
pub open spec fn seed_choking_algorithm_code(v: SeedChokingAlgorithm) -> i32 {
    match v {
        SeedChokingAlgorithm::RoundRobin => 0,
        SeedChokingAlgorithm::FastestUpload => 1,
        SeedChokingAlgorithm::AntiLeech => 2,
    }
}
/// Each [`SeedChokingAlgorithm`] is stored as libtorrent's constant for it (`RoundRobin` as 0, `FastestUpload` as 1, `AntiLeech` as 2),
/// and each of those constants reads back as that variant.
pub proof fn lemma_seed_choking_algorithm_codes()
    ensures
        seed_choking_algorithm_code(SeedChokingAlgorithm::RoundRobin) == 0,
        seed_choking_algorithm_code(SeedChokingAlgorithm::FastestUpload) == 1,
        seed_choking_algorithm_code(SeedChokingAlgorithm::AntiLeech) == 2,
        seed_choking_algorithm_of_code(0) == Some(SeedChokingAlgorithm::RoundRobin),
        seed_choking_algorithm_of_code(1) == Some(SeedChokingAlgorithm::FastestUpload),
        seed_choking_algorithm_of_code(2) == Some(SeedChokingAlgorithm::AntiLeech),
{
}


/// The [`SeedChokingAlgorithm`] a stored value stands for, if any.
pub open spec fn seed_choking_algorithm_of_code(raw: i32) -> Option<SeedChokingAlgorithm> {
    if raw == 0 {
        Some(SeedChokingAlgorithm::RoundRobin)
    } else if raw == 1 {
        Some(SeedChokingAlgorithm::FastestUpload)
    } else if raw == 2 {
        Some(SeedChokingAlgorithm::AntiLeech)
    } else {
        None
    }
}

impl SeedChokingAlgorithm {
    /// The stored value.
    pub fn to_raw(self) -> (r: i32)
        ensures
            r == seed_choking_algorithm_code(self),
    {
        match self {
            SeedChokingAlgorithm::RoundRobin => 0,
            SeedChokingAlgorithm::FastestUpload => 1,
            SeedChokingAlgorithm::AntiLeech => 2,
        }
    }

    /// The variant a stored value stands for; `None` for values these
    /// bindings don't know.
    pub fn from_raw(raw: i32) -> (r: Option<SeedChokingAlgorithm>)
        ensures
            r == seed_choking_algorithm_of_code(raw),
    {
        if raw == 0 {
            Some(SeedChokingAlgorithm::RoundRobin)
        } else if raw == 1 {
            Some(SeedChokingAlgorithm::FastestUpload)
        } else if raw == 2 {
            Some(SeedChokingAlgorithm::AntiLeech)
        } else {
            None
        }
    }
}

/// Every [`SeedChokingAlgorithm`] reads back from the value it is stored as.
pub proof fn lemma_seed_choking_algorithm_round_trip(v: SeedChokingAlgorithm)
    ensures
        seed_choking_algorithm_of_code(seed_choking_algorithm_code(v)) == Some(v),
{
}

/// Values for the `io_buffer_mode`-family settings (`lt::settings_pack::io_buffer_mode_t`).
#[derive(Clone, Copy, Debug, PartialEq, Eq, Hash, Structural)]
pub enum IoBufferMode {
    /// Files are opened normally, with the OS caching reads and writes.
    EnableOsCache,
    /// Files are opened with no OS caching.
    DisableOsCache,
    /// Writes go straight through the OS cache to the disk.
    WriteThrough,
}

/// The stored value of a [`IoBufferMode`].
pub open spec fn io_buffer_mode_code(v: IoBufferMode) -> i32 {
    match v {
        IoBufferMode::EnableOsCache => 0,
        IoBufferMode::DisableOsCache => 2,
        IoBufferMode::WriteThrough => 3,
    }
}
/// Each [`IoBufferMode`] is stored as libtorrent's constant for it (`EnableOsCache` as 0, `DisableOsCache` as 2, `WriteThrough` as 3),
/// and each of those constants reads back as that variant.
pub proof fn lemma_io_buffer_mode_codes()
    ensures
        io_buffer_mode_code(IoBufferMode::EnableOsCache) == 0,
        io_buffer_mode_code(IoBufferMode::DisableOsCache) == 2,
        io_buffer_mode_code(IoBufferMode::WriteThrough) == 3,
        io_buffer_mode_of_code(0) == Some(IoBufferMode::EnableOsCache),
        io_buffer_mode_of_code(2) == Some(IoBufferMode::DisableOsCache),
        io_buffer_mode_of_code(3) == Some(IoBufferMode::WriteThrough),
{
}


/// The [`IoBufferMode`] a stored value stands for, if any.
pub open spec fn io_buffer_mode_of_code(raw: i32) -> Option<IoBufferMode> {
    if raw == 0 {
        Some(IoBufferMode::EnableOsCache)
    } else if raw == 2 {
        Some(IoBufferMode::DisableOsCache)
    } else if raw == 3 {
        Some(IoBufferMode::WriteThrough)
    } else {
        None
    }
}

impl IoBufferMode {
    /// The stored value.
    pub fn to_raw(self) -> (r: i32)
        ensures
            r == io_buffer_mode_code(self),
    {
        match self {
            IoBufferMode::EnableOsCache => 0,
            IoBufferMode::DisableOsCache => 2,
            IoBufferMode::WriteThrough => 3,
        }
    }

    /// The variant a stored value stands for; `None` for values these
    /// bindings don't know.
    pub fn from_raw(raw: i32) -> (r: Option<IoBufferMode>)
        ensures
            r == io_buffer_mode_of_code(raw),
    {
        if raw == 0 {
            Some(IoBufferMode::EnableOsCache)
        } else if raw == 2 {
            Some(IoBufferMode::DisableOsCache)
        } else if raw == 3 {
            Some(IoBufferMode::WriteThrough)
        } else {
            None
        }
    }
}

/// Every [`IoBufferMode`] reads back from the value it is stored as.
pub proof fn lemma_io_buffer_mode_round_trip(v: IoBufferMode)
    ensures
        io_buffer_mode_of_code(io_buffer_mode_code(v)) == Some(v),
{
}

/// Values for the `mixed_mode_algorithm`-family settings (`lt::settings_pack::bandwidth_mixed_algo_t`).
#[derive(Clone, Copy, Debug, PartialEq, Eq, Hash, Structural)]
pub enum BandwidthMixedAlgo {
    /// Disregard uTP peers when TCP peers compete for bandwidth.
    PreferTcp,
    /// Split the rate limit among uTP and TCP peers in proportion to their numbers.
    PeerProportional,
}

/// The stored value of a [`BandwidthMixedAlgo`].
pub open spec fn bandwidth_mixed_algo_code(v: BandwidthMixedAlgo) -> i32 {
    match v {
        BandwidthMixedAlgo::PreferTcp => 0,
        BandwidthMixedAlgo::PeerProportional => 1,
    }
}
/// Each [`BandwidthMixedAlgo`] is stored as libtorrent's constant for it (`PreferTcp` as 0, `PeerProportional` as 1),
/// and each of those constants reads back as that variant.
pub proof fn lemma_bandwidth_mixed_algo_codes()
    ensures
        bandwidth_mixed_algo_code(BandwidthMixedAlgo::PreferTcp) == 0,
        bandwidth_mixed_algo_code(BandwidthMixedAlgo::PeerProportional) == 1,
        bandwidth_mixed_algo_of_code(0) == Some(BandwidthMixedAlgo::PreferTcp),
        bandwidth_mixed_algo_of_code(1) == Some(BandwidthMixedAlgo::PeerProportional),
{
}


/// The [`BandwidthMixedAlgo`] a stored value stands for, if any.
pub open spec fn bandwidth_mixed_algo_of_code(raw: i32) -> Option<BandwidthMixedAlgo> {
    if raw == 0 {
        Some(BandwidthMixedAlgo::PreferTcp)
    } else if raw == 1 {
        Some(BandwidthMixedAlgo::PeerProportional)
    } else {
        None
    }
}

impl BandwidthMixedAlgo {
    /// The stored value.
    pub fn to_raw(self) -> (r: i32)
        ensures
            r == bandwidth_mixed_algo_code(self),
    {
        match self {
            BandwidthMixedAlgo::PreferTcp => 0,
            BandwidthMixedAlgo::PeerProportional => 1,
        }
    }

    /// The variant a stored value stands for; `None` for values these
    /// bindings don't know.
    pub fn from_raw(raw: i32) -> (r: Option<BandwidthMixedAlgo>)
        ensures
            r == bandwidth_mixed_algo_of_code(raw),
    {
        if raw == 0 {
            Some(BandwidthMixedAlgo::PreferTcp)
        } else if raw == 1 {
            Some(BandwidthMixedAlgo::PeerProportional)
        } else {
            None
        }
    }
}

/// Every [`BandwidthMixedAlgo`] reads back from the value it is stored as.
pub proof fn lemma_bandwidth_mixed_algo_round_trip(v: BandwidthMixedAlgo)
    ensures
        bandwidth_mixed_algo_of_code(bandwidth_mixed_algo_code(v)) == Some(v),
{
}

/// Values for the `out_enc_policy`/`in_enc_policy` settings (`lt::settings_pack::enc_policy`).
#[derive(Clone, Copy, Debug, PartialEq, Eq, Hash, Structural)]
pub enum EncPolicy {
    /// Only encrypted connections are allowed.
    PeForced,
    /// Encrypted connections are enabled, plaintext ones allowed.
    PeEnabled,
    /// Only plaintext connections are allowed.
    PeDisabled,
}

/// The stored value of a [`EncPolicy`].
pub open spec fn enc_policy_code(v: EncPolicy) -> i32 {
    match v {
        EncPolicy::PeForced => 0,
        EncPolicy::PeEnabled => 1,
        EncPolicy::PeDisabled => 2,
    }
}
/// Each [`EncPolicy`] is stored as libtorrent's constant for it (`PeForced` as 0, `PeEnabled` as 1, `PeDisabled` as 2),
/// and each of those constants reads back as that variant.
pub proof fn lemma_enc_policy_codes()
    ensures
        enc_policy_code(EncPolicy::PeForced) == 0,
        enc_policy_code(EncPolicy::PeEnabled) == 1,
        enc_policy_code(EncPolicy::PeDisabled) == 2,
        enc_policy_of_code(0) == Some(EncPolicy::PeForced),
        enc_policy_of_code(1) == Some(EncPolicy::PeEnabled),
        enc_policy_of_code(2) == Some(EncPolicy::PeDisabled),
{
}


/// The [`EncPolicy`] a stored value stands for, if any.
pub open spec fn enc_policy_of_code(raw: i32) -> Option<EncPolicy> {
    if raw == 0 {
        Some(EncPolicy::PeForced)
    } else if raw == 1 {
        Some(EncPolicy::PeEnabled)
    } else if raw == 2 {
        Some(EncPolicy::PeDisabled)
    } else {
        None
    }
}

impl EncPolicy {
    /// The stored value.
    pub fn to_raw(self) -> (r: i32)
        ensures
            r == enc_policy_code(self),
    {
        match self {
            EncPolicy::PeForced => 0,
            EncPolicy::PeEnabled => 1,
            EncPolicy::PeDisabled => 2,
        }
    }

    /// The variant a stored value stands for; `None` for values these
    /// bindings don't know.
    pub fn from_raw(raw: i32) -> (r: Option<EncPolicy>)
        ensures
            r == enc_policy_of_code(raw),
    {
        if raw == 0 {
            Some(EncPolicy::PeForced)
        } else if raw == 1 {
            Some(EncPolicy::PeEnabled)
        } else if raw == 2 {
            Some(EncPolicy::PeDisabled)
        } else {
            None
        }
    }
}

/// Every [`EncPolicy`] reads back from the value it is stored as.
pub proof fn lemma_enc_policy_round_trip(v: EncPolicy)
    ensures
        enc_policy_of_code(enc_policy_code(v)) == Some(v),
{
}

/// Values for the `allowed_enc_level` setting (`lt::settings_pack::enc_level`).
#[derive(Clone, Copy, Debug, PartialEq, Eq, Hash, Structural)]
pub enum EncLevel {
    /// Only the handshake is encrypted.
    PePlaintext,
    /// The whole stream is RC4-encrypted.
    PeRc4,
    /// Both levels are allowed; RC4 is preferred when `prefer_rc4` is set.
    PeBoth,
}

/// The stored value of a [`EncLevel`].
pub open spec fn enc_level_code(v: EncLevel) -> i32 {
    match v {
        EncLevel::PePlaintext => 1,
        EncLevel::PeRc4 => 2,
        EncLevel::PeBoth => 3,
    }
}
/// Each [`EncLevel`] is stored as libtorrent's constant for it (`PePlaintext` as 1, `PeRc4` as 2, `PeBoth` as 3),
/// and each of those constants reads back as that variant.
pub proof fn lemma_enc_level_codes()
    ensures
        enc_level_code(EncLevel::PePlaintext) == 1,
        enc_level_code(EncLevel::PeRc4) == 2,
        enc_level_code(EncLevel::PeBoth) == 3,
        enc_level_of_code(1) == Some(EncLevel::PePlaintext),
        enc_level_of_code(2) == Some(EncLevel::PeRc4),
        enc_level_of_code(3) == Some(EncLevel::PeBoth),
{
}


/// The [`EncLevel`] a stored value stands for, if any.
pub open spec fn enc_level_of_code(raw: i32) -> Option<EncLevel> {
    if raw == 1 {
        Some(EncLevel::PePlaintext)
    } else if raw == 2 {
        Some(EncLevel::PeRc4)
    } else if raw == 3 {
        Some(EncLevel::PeBoth)
    } else {
        None
    }
}

impl EncLevel {
    /// The stored value.
    pub fn to_raw(self) -> (r: i32)
        ensures
            r == enc_level_code(self),
    {
        match self {
            EncLevel::PePlaintext => 1,
            EncLevel::PeRc4 => 2,
            EncLevel::PeBoth => 3,
        }
    }

    /// The variant a stored value stands for; `None` for values these
    /// bindings don't know.
    pub fn from_raw(raw: i32) -> (r: Option<EncLevel>)
        ensures
            r == enc_level_of_code(raw),
    {
        if raw == 1 {
            Some(EncLevel::PePlaintext)
        } else if raw == 2 {
            Some(EncLevel::PeRc4)
        } else if raw == 3 {
            Some(EncLevel::PeBoth)
        } else {
            None
        }
    }
}

/// Every [`EncLevel`] reads back from the value it is stored as.
pub proof fn lemma_enc_level_round_trip(v: EncLevel)
    ensures
        enc_level_of_code(enc_level_code(v)) == Some(v),
{
}

/// Values for the `proxy_type` setting (`lt::settings_pack::proxy_type_t`).
#[derive(Clone, Copy, Debug, PartialEq, Eq, Hash, Structural)]
pub enum ProxyType {
    /// No proxy.
    NoProxy,
    /// A SOCKS4 proxy.
    Socks4,
    /// A SOCKS5 proxy without authentication.
    Socks5,
    /// A SOCKS5 proxy with username/password authentication.
    Socks5Pw,
    /// An HTTP proxy without authentication.
    Http,
    /// An HTTP proxy with basic authentication.
    HttpPw,
}

/// The stored value of a [`ProxyType`].
pub open spec fn proxy_type_code(v: ProxyType) -> i32 {
    match v {
        ProxyType::NoProxy => 0,
        ProxyType::Socks4 => 1,
        ProxyType::Socks5 => 2,
        ProxyType::Socks5Pw => 3,
        ProxyType::Http => 4,
        ProxyType::HttpPw => 5,
    }
}
/// Each [`ProxyType`] is stored as libtorrent's constant for it (`NoProxy` as 0, `Socks4` as 1, `Socks5` as 2, `Socks5Pw` as 3, `Http` as 4, `HttpPw` as 5),
/// and each of those constants reads back as that variant.
pub proof fn lemma_proxy_type_codes()
    ensures
        proxy_type_code(ProxyType::NoProxy) == 0,
        proxy_type_code(ProxyType::Socks4) == 1,
        proxy_type_code(ProxyType::Socks5) == 2,
        proxy_type_code(ProxyType::Socks5Pw) == 3,
        proxy_type_code(ProxyType::Http) == 4,
        proxy_type_code(ProxyType::HttpPw) == 5,
        proxy_type_of_code(0) == Some(ProxyType::NoProxy),
        proxy_type_of_code(1) == Some(ProxyType::Socks4),
        proxy_type_of_code(2) == Some(ProxyType::Socks5),
        proxy_type_of_code(3) == Some(ProxyType::Socks5Pw),
        proxy_type_of_code(4) == Some(ProxyType::Http),
        proxy_type_of_code(5) == Some(ProxyType::HttpPw),
{
}


/// The [`ProxyType`] a stored value stands for, if any.
pub open spec fn proxy_type_of_code(raw: i32) -> Option<ProxyType> {
    if raw == 0 {
        Some(ProxyType::NoProxy)
    } else if raw == 1 {
        Some(ProxyType::Socks4)
    } else if raw == 2 {
        Some(ProxyType::Socks5)
    } else if raw == 3 {
        Some(ProxyType::Socks5Pw)
    } else if raw == 4 {
        Some(ProxyType::Http)
    } else if raw == 5 {
        Some(ProxyType::HttpPw)
    } else {
        None
    }
}

impl ProxyType {
    /// The stored value.
    pub fn to_raw(self) -> (r: i32)
        ensures
            r == proxy_type_code(self),
    {
        match self {
            ProxyType::NoProxy => 0,
            ProxyType::Socks4 => 1,
            ProxyType::Socks5 => 2,
            ProxyType::Socks5Pw => 3,
            ProxyType::Http => 4,
            ProxyType::HttpPw => 5,
        }
    }

    /// The variant a stored value stands for; `None` for values these
    /// bindings don't know.
    pub fn from_raw(raw: i32) -> (r: Option<ProxyType>)
        ensures
            r == proxy_type_of_code(raw),
    {
        if raw == 0 {
            Some(ProxyType::NoProxy)
        } else if raw == 1 {
            Some(ProxyType::Socks4)
        } else if raw == 2 {
            Some(ProxyType::Socks5)
        } else if raw == 3 {
            Some(ProxyType::Socks5Pw)
        } else if raw == 4 {
            Some(ProxyType::Http)
        } else if raw == 5 {
            Some(ProxyType::HttpPw)
        } else {
            None
        }
    }
}

/// Every [`ProxyType`] reads back from the value it is stored as.
pub proof fn lemma_proxy_type_round_trip(v: ProxyType)
    ensures
        proxy_type_of_code(proxy_type_code(v)) == Some(v),
{
}

} // verus!
