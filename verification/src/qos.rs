//! Bit-packed quality-of-service and query-settings bytes.
//!
//! `Qos` packs priority, congestion control, express, reliability and
//! locality into one byte laid out as `llrecppp`; `QuerySettings` packs
//! target, consolidation and reply-key-expression acceptance into one byte
//! laid out as `rcctt`.

use vstd::prelude::*;

verus! {

#[derive(Clone, Copy, PartialEq, Eq, Structural, Debug)]
pub enum Priority {
    RealTime,
    InteractiveHigh,
    InteractiveLow,
    DataHigh,
    Data,
    DataLow,
    Background,
}

#[derive(Clone, Copy, PartialEq, Eq, Structural, Debug)]
pub enum CongestionControl {
    Drop,
    Block,
}

#[derive(Clone, Copy, PartialEq, Eq, Structural, Debug)]
pub enum Reliability {
    BestEffort,
    Reliable,
}

#[derive(Clone, Copy, PartialEq, Eq, Structural, Debug)]
pub enum Locality {
    SessionLocal,
    Remote,
    Any,
}

#[derive(Clone, Copy, PartialEq, Eq, Structural, Debug)]
pub enum QueryTarget {
    All,
    AllComplete,
    BestMatching,
}

#[derive(Clone, Copy, PartialEq, Eq, Structural, Debug)]
pub enum ConsolidationMode {
    Auto,
    NoConsolidation,
    Monotonic,
    Latest,
}

#[derive(Clone, Copy, PartialEq, Eq, Structural, Debug)]
pub enum ReplyKeyExpr {
    Any,
    MatchingQuery,
}

pub open spec fn spec_priority_to_u8(p: Priority) -> u8 {
    match p {
        Priority::RealTime => 1,
        Priority::InteractiveHigh => 2,
        Priority::InteractiveLow => 3,
        Priority::DataHigh => 4,
        Priority::Data => 5,
        Priority::DataLow => 6,
        Priority::Background => 7,
    }
}

/// Values outside 1..=7 fall back to the default priority.
pub open spec fn spec_priority_from_u8(v: u8) -> Priority {
    if v == 1 {
        Priority::RealTime
    } else if v == 2 {
        Priority::InteractiveHigh
    } else if v == 3 {
        Priority::InteractiveLow
    } else if v == 4 {
        Priority::DataHigh
    } else if v == 6 {
        Priority::DataLow
    } else if v == 7 {
        Priority::Background
    } else {
        Priority::Data
    }
}

pub fn priority_to_u8(p: Priority) -> (r: u8)
    ensures
        r == spec_priority_to_u8(p),
{
    match p {
        Priority::RealTime => 1,
        Priority::InteractiveHigh => 2,
        Priority::InteractiveLow => 3,
        Priority::DataHigh => 4,
        Priority::Data => 5,
        Priority::DataLow => 6,
        Priority::Background => 7,
    }
}

pub fn priority_from_u8(v: u8) -> (r: Priority)
    ensures
        r == spec_priority_from_u8(v),
{
    if v == 1 {
        Priority::RealTime
    } else if v == 2 {
        Priority::InteractiveHigh
    } else if v == 3 {
        Priority::InteractiveLow
    } else if v == 4 {
        Priority::DataHigh
    } else if v == 6 {
        Priority::DataLow
    } else if v == 7 {
        Priority::Background
    } else {
        Priority::Data
    }
}

/// The `llrecppp` packing of one quality-of-service byte.
pub open spec fn spec_qos_pack(
    priority: Priority,
    congestion_control: CongestionControl,
    express: bool,
    reliability: Reliability,
    locality: Locality,
) -> u8 {
    let p = spec_priority_to_u8(priority);
    let c: u8 = if congestion_control is Block {
        1
    } else {
        0
    };
    let e: u8 = if express {
        1
    } else {
        0
    };
    let r: u8 = if reliability is Reliable {
        1
    } else {
        0
    };
    let l: u8 = match locality {
        Locality::SessionLocal => 0,
        Locality::Remote => 1,
        Locality::Any => 2,
    };
    p | (c << 3) | (e << 4) | (r << 5) | (l << 6)
}

pub open spec fn spec_qos_priority(b: u8) -> Priority {
    spec_priority_from_u8(b & 0x7)
}

pub open spec fn spec_qos_congestion_control(b: u8) -> CongestionControl {
    if (b >> 3) & 1 == 0 {
        CongestionControl::Drop
    } else {
        CongestionControl::Block
    }
}

pub open spec fn spec_qos_express(b: u8) -> bool {
    (b >> 4) & 1 == 1
}

pub open spec fn spec_qos_reliability(b: u8) -> Reliability {
    if (b >> 5) & 1 == 0 {
        Reliability::BestEffort
    } else {
        Reliability::Reliable
    }
}

/// The reserved two-bit value 3 falls back to `Any`.
pub open spec fn spec_qos_locality(b: u8) -> Locality {
    if (b >> 6) & 0x3 == 0 {
        Locality::SessionLocal
    } else if (b >> 6) & 0x3 == 1 {
        Locality::Remote
    } else {
        Locality::Any
    }
}

/// One quality-of-service byte; see the module documentation for the layout.
#[derive(Clone, Copy, PartialEq, Eq, Structural, Debug)]
pub struct Qos {
    pub inner: u8,
}

impl Qos {
    /// The raw byte as it travels on the wire.
    pub open spec fn byte(self) -> u8 {
        self.inner
    }

    pub open spec fn spec_priority(self) -> Priority {
        spec_qos_priority(self.inner)
    }

    pub open spec fn spec_congestion_control(self) -> CongestionControl {
        spec_qos_congestion_control(self.inner)
    }

    pub open spec fn spec_express(self) -> bool {
        spec_qos_express(self.inner)
    }

    pub open spec fn spec_reliability(self) -> Reliability {
        spec_qos_reliability(self.inner)
    }

    pub open spec fn spec_locality(self) -> Locality {
        spec_qos_locality(self.inner)
    }

    pub fn new(
        priority: Priority,
        congestion_control: CongestionControl,
        express: bool,
        reliability: Reliability,
        locality: Locality,
    ) -> (r: Qos)
        ensures
            r.byte() == spec_qos_pack(priority, congestion_control, express, reliability, locality),
            r.spec_priority() == priority,
            r.spec_congestion_control() == congestion_control,
            r.spec_express() == express,
            r.spec_reliability() == reliability,
            r.spec_locality() == locality,
    {
        proof {
            lemma_qos_roundtrip(priority, congestion_control, express, reliability, locality);
        }
        let p: u8 = priority_to_u8(priority);
        let c: u8 = match congestion_control {
            CongestionControl::Drop => 0,
            CongestionControl::Block => 1,
        };
        let e: u8 = if express {
            1
        } else {
            0
        };
        let rl: u8 = match reliability {
            Reliability::BestEffort => 0,
            Reliability::Reliable => 1,
        };
        let l: u8 = match locality {
            Locality::SessionLocal => 0,
            Locality::Remote => 1,
            Locality::Any => 2,
        };
        Qos { inner: p | (c << 3) | (e << 4) | (rl << 5) | (l << 6) }
    }

    pub fn from_byte(b: u8) -> (r: Qos)
        ensures
            r.byte() == b,
    {
        Qos { inner: b }
    }

    pub fn to_byte(&self) -> (r: u8)
        ensures
            r == self.byte(),
    {
        self.inner
    }

    pub fn priority(&self) -> (r: Priority)
        ensures
            r == self.spec_priority(),
    {
        priority_from_u8(self.inner & 0x7)
    }

    pub fn congestion_control(&self) -> (r: CongestionControl)
        ensures
            r == self.spec_congestion_control(),
    {
        if (self.inner >> 3) & 1 == 0 {
            CongestionControl::Drop
        } else {
            CongestionControl::Block
        }
    }

    pub fn express(&self) -> (r: bool)
        ensures
            r == self.spec_express(),
    {
        (self.inner >> 4) & 1 == 1
    }

    pub fn reliability(&self) -> (r: Reliability)
        ensures
            r == self.spec_reliability(),
    {
        if (self.inner >> 5) & 1 == 0 {
            Reliability::BestEffort
        } else {
            Reliability::Reliable
        }
    }

    pub fn locality(&self) -> (r: Locality)
        ensures
            r == self.spec_locality(),
    {
        let l: u8 = (self.inner >> 6) & 0x3;
        if l == 0 {
            Locality::SessionLocal
        } else if l == 1 {
            Locality::Remote
        } else {
            Locality::Any
        }
    }
}

impl Default for Qos {
    /// The default quality of service: priority `Data`, congestion `Drop`,
    /// not express, best-effort, locality `Any`.
    fn default() -> (r: Qos)
        ensures
            r.byte() == spec_qos_pack(
                Priority::Data,
                CongestionControl::Drop,
                false,
                Reliability::BestEffort,
                Locality::Any,
            ),
    {
        Qos::new(
            Priority::Data,
            CongestionControl::Drop,
            false,
            Reliability::BestEffort,
            Locality::Any,
        )
    }
}

/// Unpacking a packed quality-of-service byte restores every field: the
/// wire byte is a faithful image of the five components.
pub proof fn lemma_qos_roundtrip(
    priority: Priority,
    congestion_control: CongestionControl,
    express: bool,
    reliability: Reliability,
    locality: Locality,
)
    ensures
        spec_qos_priority(
            spec_qos_pack(priority, congestion_control, express, reliability, locality),
        ) == priority,
        spec_qos_congestion_control(
            spec_qos_pack(priority, congestion_control, express, reliability, locality),
        ) == congestion_control,
        spec_qos_express(
            spec_qos_pack(priority, congestion_control, express, reliability, locality),
        ) == express,
        spec_qos_reliability(
            spec_qos_pack(priority, congestion_control, express, reliability, locality),
        ) == reliability,
        spec_qos_locality(
            spec_qos_pack(priority, congestion_control, express, reliability, locality),
        ) == locality,
{
    let p = spec_priority_to_u8(priority);
    let c: u8 = if congestion_control is Block {
        1
    } else {
        0
    };
    let e: u8 = if express {
        1
    } else {
        0
    };
    let r: u8 = if reliability is Reliable {
        1
    } else {
        0
    };
    let l: u8 = match locality {
        Locality::SessionLocal => 0u8,
        Locality::Remote => 1u8,
        Locality::Any => 2u8,
    };
    let packed = p | (c << 3) | (e << 4) | (r << 5) | (l << 6);
    assert(1 <= p <= 7 && c <= 1 && e <= 1 && r <= 1 && l <= 2 ==> packed & 0x7 == p
        && (packed >> 3) & 1 == c && (packed >> 4) & 1 == e && (packed >> 5) & 1 == r && (packed
        >> 6) & 0x3 == l) by (bit_vector)
        requires
            packed == p | (c << 3) | (e << 4) | (r << 5) | (l << 6),
    ;
}

/// The `rcctt` packing of one query-settings byte.
pub open spec fn spec_qs_pack(
    target: QueryTarget,
    consolidation: ConsolidationMode,
    reply_keyexpr: ReplyKeyExpr,
) -> u8 {
    let t: u8 = match target {
        QueryTarget::All => 0,
        QueryTarget::AllComplete => 1,
        QueryTarget::BestMatching => 2,
    };
    let c: u8 = match consolidation {
        ConsolidationMode::Auto => 0,
        ConsolidationMode::NoConsolidation => 1,
        ConsolidationMode::Monotonic => 2,
        ConsolidationMode::Latest => 3,
    };
    let r: u8 = if reply_keyexpr is MatchingQuery {
        1
    } else {
        0
    };
    t | (c << 2) | (r << 4)
}

/// The reserved two-bit value 3 falls back to the default target.
pub open spec fn spec_qs_target(b: u8) -> QueryTarget {
    if b & 0x3 == 0 {
        QueryTarget::All
    } else if b & 0x3 == 1 {
        QueryTarget::AllComplete
    } else {
        QueryTarget::BestMatching
    }
}

pub open spec fn spec_qs_consolidation(b: u8) -> ConsolidationMode {
    if (b >> 2) & 0x3 == 0 {
        ConsolidationMode::Auto
    } else if (b >> 2) & 0x3 == 1 {
        ConsolidationMode::NoConsolidation
    } else if (b >> 2) & 0x3 == 2 {
        ConsolidationMode::Monotonic
    } else {
        ConsolidationMode::Latest
    }
}

pub open spec fn spec_qs_reply_keyexpr(b: u8) -> ReplyKeyExpr {
    if (b >> 4) & 1 == 0 {
        ReplyKeyExpr::Any
    } else {
        ReplyKeyExpr::MatchingQuery
    }
}

/// One query-settings byte; see the module documentation for the layout.
#[derive(Clone, Copy, PartialEq, Eq, Structural, Debug)]
pub struct QuerySettings {
    pub inner: u8,
}

impl QuerySettings {
    /// The raw byte as it travels on the wire.
    pub open spec fn byte(self) -> u8 {
        self.inner
    }

    pub open spec fn spec_target(self) -> QueryTarget {
        spec_qs_target(self.inner)
    }

    pub open spec fn spec_consolidation(self) -> ConsolidationMode {
        spec_qs_consolidation(self.inner)
    }

    pub open spec fn spec_reply_keyexpr(self) -> ReplyKeyExpr {
        spec_qs_reply_keyexpr(self.inner)
    }

    pub fn new(
        target: QueryTarget,
        consolidation: ConsolidationMode,
        reply_keyexpr: ReplyKeyExpr,
    ) -> (r: QuerySettings)
        ensures
            r.byte() == spec_qs_pack(target, consolidation, reply_keyexpr),
            r.spec_target() == target,
            r.spec_consolidation() == consolidation,
            r.spec_reply_keyexpr() == reply_keyexpr,
    {
        proof {
            lemma_query_settings_roundtrip(target, consolidation, reply_keyexpr);
        }
        let t: u8 = match target {
            QueryTarget::All => 0,
            QueryTarget::AllComplete => 1,
            QueryTarget::BestMatching => 2,
        };
        let c: u8 = match consolidation {
            ConsolidationMode::Auto => 0,
            ConsolidationMode::NoConsolidation => 1,
            ConsolidationMode::Monotonic => 2,
            ConsolidationMode::Latest => 3,
        };
        let r: u8 = match reply_keyexpr {
            ReplyKeyExpr::Any => 0,
            ReplyKeyExpr::MatchingQuery => 1,
        };
        QuerySettings { inner: t | (c << 2) | (r << 4) }
    }

    pub fn from_byte(b: u8) -> (r: QuerySettings)
        ensures
            r.byte() == b,
    {
        QuerySettings { inner: b }
    }

    pub fn to_byte(&self) -> (r: u8)
        ensures
            r == self.byte(),
    {
        self.inner
    }

    pub fn target(&self) -> (r: QueryTarget)
        ensures
            r == self.spec_target(),
    {
        let t: u8 = self.inner & 0x3;
        if t == 0 {
            QueryTarget::All
        } else if t == 1 {
            QueryTarget::AllComplete
        } else {
            QueryTarget::BestMatching
        }
    }

    pub fn consolidation(&self) -> (r: ConsolidationMode)
        ensures
            r == self.spec_consolidation(),
    {
        let c: u8 = (self.inner >> 2) & 0x3;
        if c == 0 {
            ConsolidationMode::Auto
        } else if c == 1 {
            ConsolidationMode::NoConsolidation
        } else if c == 2 {
            ConsolidationMode::Monotonic
        } else {
            ConsolidationMode::Latest
        }
    }

    pub fn reply_keyexpr(&self) -> (r: ReplyKeyExpr)
        ensures
            r == self.spec_reply_keyexpr(),
    {
        if (self.inner >> 4) & 1 == 0 {
            ReplyKeyExpr::Any
        } else {
            ReplyKeyExpr::MatchingQuery
        }
    }
}

impl Default for QuerySettings {
    /// The default query settings: target `BestMatching`, consolidation
    /// `Auto`, accepting replies from any key expression.
    fn default() -> (r: QuerySettings)
        ensures
            r.byte() == spec_qs_pack(
                QueryTarget::BestMatching,
                ConsolidationMode::Auto,
                ReplyKeyExpr::Any,
            ),
    {
        QuerySettings::new(QueryTarget::BestMatching, ConsolidationMode::Auto, ReplyKeyExpr::Any)
    }
}

/// Unpacking a packed query-settings byte restores every field.
pub proof fn lemma_query_settings_roundtrip(
    target: QueryTarget,
    consolidation: ConsolidationMode,
    reply_keyexpr: ReplyKeyExpr,
)
    ensures
        spec_qs_target(spec_qs_pack(target, consolidation, reply_keyexpr)) == target,
        spec_qs_consolidation(spec_qs_pack(target, consolidation, reply_keyexpr)) == consolidation,
        spec_qs_reply_keyexpr(spec_qs_pack(target, consolidation, reply_keyexpr)) == reply_keyexpr,
{
    let t: u8 = match target {
        QueryTarget::All => 0u8,
        QueryTarget::AllComplete => 1u8,
        QueryTarget::BestMatching => 2u8,
    };
    let c: u8 = match consolidation {
        ConsolidationMode::Auto => 0u8,
        ConsolidationMode::NoConsolidation => 1u8,
        ConsolidationMode::Monotonic => 2u8,
        ConsolidationMode::Latest => 3u8,
    };
    let r: u8 = if reply_keyexpr is MatchingQuery {
        1u8
    } else {
        0u8
    };
    let packed = t | (c << 2) | (r << 4);
    assert(t <= 2 && c <= 3 && r <= 1 ==> packed & 0x3 == t && (packed >> 2) & 0x3 == c && (packed
        >> 4) & 1 == r) by (bit_vector)
        requires
            packed == t | (c << 2) | (r << 4),
    ;
}

} // verus!
