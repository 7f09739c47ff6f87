use traverse::forks::{revm_spec, ActiveForks, Hardfork, SpecId};

fn none() -> ActiveForks {
    ActiveForks {
        frontier: false,
        homestead: false,
        tangerine: false,
        spurious_dragon: false,
        byzantium: false,
        petersburg: false,
        istanbul: false,
        berlin: false,
        london: false,
        paris: false,
        shanghai: false,
        cancun: false,
        prague: false,
        bedrock: false,
        regolith: false,
        canyon: false,
        ecotone: false,
        fjord: false,
        granite: false,
    }
}

fn all() -> ActiveForks {
    ActiveForks {
        frontier: true,
        homestead: true,
        tangerine: true,
        spurious_dragon: true,
        byzantium: true,
        petersburg: true,
        istanbul: true,
        berlin: true,
        london: true,
        paris: true,
        shanghai: true,
        cancun: true,
        prague: true,
        bedrock: true,
        regolith: true,
        canyon: true,
        ecotone: true,
        fjord: true,
        granite: true,
    }
}

#[test]
fn no_fork_in_force_has_no_rules() {
    assert_eq!(revm_spec(&none()), None);
}

#[test]
fn frontier_alone_runs_frontier() {
    assert_eq!(revm_spec(&ActiveForks { frontier: true, ..none() }), Some(SpecId::Frontier));
}

#[test]
fn each_fork_alone_has_its_rules() {
    let cases = [
        (ActiveForks { homestead: true, ..none() }, SpecId::Homestead),
        (ActiveForks { tangerine: true, ..none() }, SpecId::Tangerine),
        (ActiveForks { spurious_dragon: true, ..none() }, SpecId::SpuriousDragon),
        (ActiveForks { byzantium: true, ..none() }, SpecId::Byzantium),
        (ActiveForks { petersburg: true, ..none() }, SpecId::Petersburg),
        (ActiveForks { istanbul: true, ..none() }, SpecId::Istanbul),
        (ActiveForks { berlin: true, ..none() }, SpecId::Berlin),
        (ActiveForks { london: true, ..none() }, SpecId::London),
        (ActiveForks { paris: true, ..none() }, SpecId::Merge),
        (ActiveForks { shanghai: true, ..none() }, SpecId::Shanghai),
        (ActiveForks { cancun: true, ..none() }, SpecId::Cancun),
        (ActiveForks { prague: true, ..none() }, SpecId::Osaka),
        (ActiveForks { bedrock: true, ..none() }, SpecId::Bedrock),
        (ActiveForks { regolith: true, ..none() }, SpecId::Regolith),
        (ActiveForks { canyon: true, ..none() }, SpecId::Canyon),
        (ActiveForks { ecotone: true, ..none() }, SpecId::Ecotone),
        (ActiveForks { fjord: true, ..none() }, SpecId::Fjord),
        (ActiveForks { granite: true, ..none() }, SpecId::Granite),
    ];
    for (active, spec) in cases {
        assert_eq!(revm_spec(&active), Some(spec));
    }
}

#[test]
fn prague_runs_ahead_of_everything() {
    assert_eq!(revm_spec(&all()), Some(SpecId::Osaka));
    assert_eq!(revm_spec(&ActiveForks { prague: true, granite: true, ..none() }), Some(SpecId::Osaka));
}

#[test]
fn rollup_forks_stand_above_network_forks() {
    let active = ActiveForks { prague: false, ..all() };
    assert_eq!(revm_spec(&active), Some(SpecId::Granite));
    let active = ActiveForks { granite: false, ..active };
    assert_eq!(revm_spec(&active), Some(SpecId::Fjord));
    let active = ActiveForks { fjord: false, ..active };
    assert_eq!(revm_spec(&active), Some(SpecId::Ecotone));
    let active = ActiveForks { ecotone: false, ..active };
    assert_eq!(revm_spec(&active), Some(SpecId::Canyon));
    let active = ActiveForks { canyon: false, ..active };
    assert_eq!(revm_spec(&active), Some(SpecId::Regolith));
    let active = ActiveForks { regolith: false, ..active };
    assert_eq!(revm_spec(&active), Some(SpecId::Bedrock));
    let active = ActiveForks { bedrock: false, ..active };
    assert_eq!(revm_spec(&active), Some(SpecId::Cancun));
    let active = ActiveForks { cancun: false, ..active };
    assert_eq!(revm_spec(&active), Some(SpecId::Shanghai));
    let active = ActiveForks { shanghai: false, ..active };
    assert_eq!(revm_spec(&active), Some(SpecId::Merge));
    let active = ActiveForks { paris: false, ..active };
    assert_eq!(revm_spec(&active), Some(SpecId::London));
}

#[test]
fn fork_lookup_reads_the_matching_field() {
    let forks = [
        Hardfork::Frontier,
        Hardfork::Homestead,
        Hardfork::Tangerine,
        Hardfork::SpuriousDragon,
        Hardfork::Byzantium,
        Hardfork::Petersburg,
        Hardfork::Istanbul,
        Hardfork::Berlin,
        Hardfork::London,
        Hardfork::Paris,
        Hardfork::Shanghai,
        Hardfork::Cancun,
        Hardfork::Prague,
        Hardfork::Bedrock,
        Hardfork::Regolith,
        Hardfork::Canyon,
        Hardfork::Ecotone,
        Hardfork::Fjord,
        Hardfork::Granite,
    ];
    for fork in forks {
        assert!(all().is_active(fork));
        assert!(!none().is_active(fork));
    }
    let only_london = ActiveForks { london: true, ..none() };
    for fork in forks {
        assert_eq!(only_london.is_active(fork), fork == Hardfork::London);
    }
}
