//! Which EVM rules a block runs under.
//!
//! A chain records for each hardfork when it comes into force. The rules for
//! a block are those of the first fork on a fixed ladder that is in force
//! at the block. Whether a fork is in force is the chain specification's to
//! say; the ladder is decided here.

use vstd::prelude::*;

verus! {

/// A hardfork of the network or of the rollup.
#[derive(Clone, Copy, Debug, PartialEq, Eq, Hash)]
pub enum Hardfork {
    /// The first release of the network.
    Frontier,
    /// Homestead.
    Homestead,
    /// Tangerine Whistle.
    Tangerine,
    /// Spurious Dragon.
    SpuriousDragon,
    /// Byzantium.
    Byzantium,
    /// Petersburg.
    Petersburg,
    /// Istanbul.
    Istanbul,
    /// Berlin.
    Berlin,
    /// London.
    London,
    /// Paris, the merge to proof of stake.
    Paris,
    /// Shanghai.
    Shanghai,
    /// Cancun.
    Cancun,
    /// Prague.
    Prague,
    /// Bedrock, the first fork of the rollup.
    Bedrock,
    /// Regolith.
    Regolith,
    /// Canyon.
    Canyon,
    /// Ecotone.
    Ecotone,
    /// Fjord.
    Fjord,
    /// Granite.
    Granite,
}

/// A revision of the EVM's rules.
#[derive(Clone, Copy, Debug, PartialEq, Eq, Hash)]
pub enum SpecId {
    /// The rules named Frontier.
    Frontier,
    /// The rules named Homestead.
    Homestead,
    /// The rules named Tangerine.
    Tangerine,
    /// The rules named SpuriousDragon.
    SpuriousDragon,
    /// The rules named Byzantium.
    Byzantium,
    /// The rules named Petersburg.
    Petersburg,
    /// The rules named Istanbul.
    Istanbul,
    /// The rules named Berlin.
    Berlin,
    /// The rules named London.
    London,
    /// The rules named Merge.
    Merge,
    /// The rules named Shanghai.
    Shanghai,
    /// The rules named Cancun.
    Cancun,
    /// The rules named Prague.
    Prague,
    /// The rules named Osaka.
    Osaka,
    /// The rules named Bedrock.
    Bedrock,
    /// The rules named Regolith.
    Regolith,
    /// The rules named Canyon.
    Canyon,
    /// The rules named Ecotone.
    Ecotone,
    /// The rules named Fjord.
    Fjord,
    /// The rules named Granite.
    Granite,
}

/// The hardforks that are in force at one block.
#[derive(Clone, Copy, Debug, PartialEq, Eq)]
pub struct ActiveForks {
    /// Whether Frontier is in force.
    pub frontier: bool,
    /// Whether Homestead is in force.
    pub homestead: bool,
    /// Whether Tangerine is in force.
    pub tangerine: bool,
    /// Whether SpuriousDragon is in force.
    pub spurious_dragon: bool,
    /// Whether Byzantium is in force.
    pub byzantium: bool,
    /// Whether Petersburg is in force.
    pub petersburg: bool,
    /// Whether Istanbul is in force.
    pub istanbul: bool,
    /// Whether Berlin is in force.
    pub berlin: bool,
    /// Whether London is in force.
    pub london: bool,
    /// Whether Paris is in force.
    pub paris: bool,
    /// Whether Shanghai is in force.
    pub shanghai: bool,
    /// Whether Cancun is in force.
    pub cancun: bool,
    /// Whether Prague is in force.
    pub prague: bool,
    /// Whether Bedrock is in force.
    pub bedrock: bool,
    /// Whether Regolith is in force.
    pub regolith: bool,
    /// Whether Canyon is in force.
    pub canyon: bool,
    /// Whether Ecotone is in force.
    pub ecotone: bool,
    /// Whether Fjord is in force.
    pub fjord: bool,
    /// Whether Granite is in force.
    pub granite: bool,
}

impl ActiveForks {
    /// Whether the given fork is in force.
    pub open spec fn has(self, fork: Hardfork) -> bool {
        match fork {
            Hardfork::Frontier => self.frontier,
            Hardfork::Homestead => self.homestead,
            Hardfork::Tangerine => self.tangerine,
            Hardfork::SpuriousDragon => self.spurious_dragon,
            Hardfork::Byzantium => self.byzantium,
            Hardfork::Petersburg => self.petersburg,
            Hardfork::Istanbul => self.istanbul,
            Hardfork::Berlin => self.berlin,
            Hardfork::London => self.london,
            Hardfork::Paris => self.paris,
            Hardfork::Shanghai => self.shanghai,
            Hardfork::Cancun => self.cancun,
            Hardfork::Prague => self.prague,
            Hardfork::Bedrock => self.bedrock,
            Hardfork::Regolith => self.regolith,
            Hardfork::Canyon => self.canyon,
            Hardfork::Ecotone => self.ecotone,
            Hardfork::Fjord => self.fjord,
            Hardfork::Granite => self.granite,
        }
    }

    /// Whether the given fork is in force.
    pub fn is_active(&self, fork: Hardfork) -> (active: bool)
        ensures
            active == self.has(fork),
    {
        match fork {
            Hardfork::Frontier => self.frontier,
            Hardfork::Homestead => self.homestead,
            Hardfork::Tangerine => self.tangerine,
            Hardfork::SpuriousDragon => self.spurious_dragon,
            Hardfork::Byzantium => self.byzantium,
            Hardfork::Petersburg => self.petersburg,
            Hardfork::Istanbul => self.istanbul,
            Hardfork::Berlin => self.berlin,
            Hardfork::London => self.london,
            Hardfork::Paris => self.paris,
            Hardfork::Shanghai => self.shanghai,
            Hardfork::Cancun => self.cancun,
            Hardfork::Prague => self.prague,
            Hardfork::Bedrock => self.bedrock,
            Hardfork::Regolith => self.regolith,
            Hardfork::Canyon => self.canyon,
            Hardfork::Ecotone => self.ecotone,
            Hardfork::Fjord => self.fjord,
            Hardfork::Granite => self.granite,
        }
    }
}

/// The ladder: each rung names a fork and the rules that a block runs under
/// when that fork is in force and none on a rung above it is.
///
/// The rollup's forks stand above the network's, newest first. On top
/// stands Prague, with the rules after Prague's own: a chain on which Prague
/// is in force runs ahead of it.
pub open spec fn ladder() -> Seq<(Hardfork, SpecId)> {
    seq![
        (Hardfork::Prague, SpecId::Osaka),
        (Hardfork::Granite, SpecId::Granite),
        (Hardfork::Fjord, SpecId::Fjord),
        (Hardfork::Ecotone, SpecId::Ecotone),
        (Hardfork::Canyon, SpecId::Canyon),
        (Hardfork::Regolith, SpecId::Regolith),
        (Hardfork::Bedrock, SpecId::Bedrock),
        (Hardfork::Prague, SpecId::Prague),
        (Hardfork::Cancun, SpecId::Cancun),
        (Hardfork::Shanghai, SpecId::Shanghai),
        (Hardfork::Paris, SpecId::Merge),
        (Hardfork::London, SpecId::London),
        (Hardfork::Berlin, SpecId::Berlin),
        (Hardfork::Istanbul, SpecId::Istanbul),
        (Hardfork::Petersburg, SpecId::Petersburg),
        (Hardfork::Byzantium, SpecId::Byzantium),
        (Hardfork::SpuriousDragon, SpecId::SpuriousDragon),
        (Hardfork::Tangerine, SpecId::Tangerine),
        (Hardfork::Homestead, SpecId::Homestead),
        (Hardfork::Frontier, SpecId::Frontier),
    ]
}

/// Whether the rung at place `i` decides: its fork is in force, and no fork
/// on a rung above it is.
pub open spec fn decides(active: ActiveForks, i: int) -> bool {
    &&& 0 <= i < ladder().len()
    &&& active.has(ladder()[i].0)
    &&& forall|j: int| 0 <= j < i ==> !active.has(#[trigger] ladder()[j].0)
}

/// Determine the EVM's rules for a block from the hardforks in force at it.
///
/// The rules are those of the rung that decides. There are none exactly
/// when no fork of the ladder is in force, which no chain allows.
pub fn revm_spec(active: &ActiveForks) -> (spec: Option<SpecId>)
    ensures
        spec is None <==> forall|i: int|
            0 <= i < ladder().len() ==> !active.has(#[trigger] ladder()[i].0),
        spec is Some ==> exists|i: int| decides(*active, i) && ladder()[i].1 == spec.unwrap(),
{
    if active.prague {
        assert(decides(*active, 0) && ladder()[0].1 == SpecId::Osaka);
        Some(SpecId::Osaka)
    } else if active.granite {
        assert(decides(*active, 1) && ladder()[1].1 == SpecId::Granite);
        Some(SpecId::Granite)
    } else if active.fjord {
        assert(decides(*active, 2) && ladder()[2].1 == SpecId::Fjord);
        Some(SpecId::Fjord)
    } else if active.ecotone {
        assert(decides(*active, 3) && ladder()[3].1 == SpecId::Ecotone);
        Some(SpecId::Ecotone)
    } else if active.canyon {
        assert(decides(*active, 4) && ladder()[4].1 == SpecId::Canyon);
        Some(SpecId::Canyon)
    } else if active.regolith {
        assert(decides(*active, 5) && ladder()[5].1 == SpecId::Regolith);
        Some(SpecId::Regolith)
    } else if active.bedrock {
        assert(decides(*active, 6) && ladder()[6].1 == SpecId::Bedrock);
        Some(SpecId::Bedrock)
    } else if active.prague {
        assert(decides(*active, 7) && ladder()[7].1 == SpecId::Prague);
        Some(SpecId::Prague)
    } else if active.cancun {
        assert(decides(*active, 8) && ladder()[8].1 == SpecId::Cancun);
        Some(SpecId::Cancun)
    } else if active.shanghai {
        assert(decides(*active, 9) && ladder()[9].1 == SpecId::Shanghai);
        Some(SpecId::Shanghai)
    } else if active.paris {
        assert(decides(*active, 10) && ladder()[10].1 == SpecId::Merge);
        Some(SpecId::Merge)
    } else if active.london {
        assert(decides(*active, 11) && ladder()[11].1 == SpecId::London);
        Some(SpecId::London)
    } else if active.berlin {
        assert(decides(*active, 12) && ladder()[12].1 == SpecId::Berlin);
        Some(SpecId::Berlin)
    } else if active.istanbul {
        assert(decides(*active, 13) && ladder()[13].1 == SpecId::Istanbul);
        Some(SpecId::Istanbul)
    } else if active.petersburg {
        assert(decides(*active, 14) && ladder()[14].1 == SpecId::Petersburg);
        Some(SpecId::Petersburg)
    } else if active.byzantium {
        assert(decides(*active, 15) && ladder()[15].1 == SpecId::Byzantium);
        Some(SpecId::Byzantium)
    } else if active.spurious_dragon {
        assert(decides(*active, 16) && ladder()[16].1 == SpecId::SpuriousDragon);
        Some(SpecId::SpuriousDragon)
    } else if active.tangerine {
        assert(decides(*active, 17) && ladder()[17].1 == SpecId::Tangerine);
        Some(SpecId::Tangerine)
    } else if active.homestead {
        assert(decides(*active, 18) && ladder()[18].1 == SpecId::Homestead);
        Some(SpecId::Homestead)
    } else if active.frontier {
        assert(decides(*active, 19) && ladder()[19].1 == SpecId::Frontier);
        Some(SpecId::Frontier)
    } else {
        assert forall|i: int| 0 <= i < ladder().len() implies !active.has(
            #[trigger] ladder()[i].0,
        ) by {
            assert(ladder().len() == 20);
        }
        None
    }
}

/// At most one rung decides, so the rules for a block are determined.
pub proof fn lemma_one_rung_decides(active: ActiveForks, i: int, j: int)
    requires
        decides(active, i),
        decides(active, j),
    ensures
        i == j,
{
    if i < j {
        assert(!active.has(ladder()[i].0));
    } else if j < i {
        assert(!active.has(ladder()[j].0));
    }
}

/// Prague's own rules are never chosen: where Prague is in force, the top
/// rung has decided already.
pub proof fn lemma_prague_runs_ahead(active: ActiveForks, i: int)
    requires
        decides(active, i),
    ensures
        ladder()[i].1 != SpecId::Prague,
        active.prague <==> ladder()[i].1 == SpecId::Osaka,
{
    assert(ladder().len() == 20);
    if active.prague {
        assert(active.has(ladder()[0].0));
        assert(i == 0);
    } else {
        assert(i != 0);
        assert(i != 7);
    }
}

} // verus!
