use trpg_json_core::config::{Config, DataConfig, MonstersConfig, SpellsConfig, SystemConfig};

#[test]
fn test_default_config() {
    let config = Config::default_config();
    match &config.data.monsters {
        MonstersConfig::Single(path) => assert_eq!(path, "data/SW2.5/monsters.json"),
        MonstersConfig::Multiple(_) => panic!("Expected single file in default config"),
    }
    assert_eq!(config.system.unwrap().name.unwrap(), "sw25");
}

#[test]
fn test_resolve_absolute_path() {
    let config = Config {
        data: DataConfig {
            monsters: MonstersConfig::Single("/absolute/path/monsters.json".to_string()),
            spells: None,
        },
        system: None,
    };

    let resolved = config.resolve_monsters_path(Some("/repo"));
    assert_eq!(resolved, "/absolute/path/monsters.json");
}

#[test]
fn test_resolve_relative_path() {
    let config = Config {
        data: DataConfig {
            monsters: MonstersConfig::Single("data/SW2.5/monsters.json".to_string()),
            spells: None,
        },
        system: None,
    };

    let resolved = config.resolve_monsters_path(Some("/repo"));
    assert_eq!(resolved, "/repo/data/SW2.5/monsters.json");
}

#[test]
fn test_resolve_multiple_paths() {
    let config = Config {
        data: DataConfig {
            monsters: MonstersConfig::Multiple(vec![
                "data/SW2.5/monsters_part1.json".to_string(),
                "data/SW2.5/monsters_part2.json".to_string(),
            ]),
            spells: None,
        },
        system: None,
    };

    let resolved = config.resolve_monsters_paths(Some("/repo"));
    assert_eq!(resolved.len(), 2);
    assert_eq!(resolved[0], "/repo/data/SW2.5/monsters_part1.json");
    assert_eq!(resolved[1], "/repo/data/SW2.5/monsters_part2.json");
}

#[test]
fn test_resolve_spells_paths() {
    let config = Config {
        data: DataConfig {
            monsters: MonstersConfig::Single("data/SW2.5/monsters.json".to_string()),
            spells: Some(SpellsConfig::Multiple(vec![
                "data/SW2.5/spells_part1.json".to_string(),
                "data/SW2.5/spells_part2.json".to_string(),
            ])),
        },
        system: None,
    };

    let resolved = config.resolve_spells_paths(Some("/repo"));
    assert_eq!(resolved.len(), 2);
    assert_eq!(resolved[0], "/repo/data/SW2.5/spells_part1.json");
    assert_eq!(resolved[1], "/repo/data/SW2.5/spells_part2.json");
}

#[test]
fn test_resolve_spells_paths_empty_when_none() {
    let config = Config {
        data: DataConfig {
            monsters: MonstersConfig::Single("data/SW2.5/monsters.json".to_string()),
            spells: None,
        },
        system: None,
    };

    let resolved = config.resolve_spells_paths(Some("/repo"));
    assert!(resolved.is_empty());
}

#[test]
fn test_resolve_single_spell_path() {
    let config = Config {
        data: DataConfig {
            monsters: MonstersConfig::Single("data/SW2.5/monsters.json".to_string()),
            spells: Some(SpellsConfig::Single("data/SW2.5/spells.json".to_string())),
        },
        system: None,
    };

    let resolved = config.resolve_spells_paths(Some("/repo"));
    assert_eq!(resolved.len(), 1);
    assert_eq!(resolved[0], "/repo/data/SW2.5/spells.json");
}

#[test]
fn test_resolve_without_base() {
    let config = Config {
        data: DataConfig {
            monsters: MonstersConfig::Single("data/SW2.5/monsters.json".to_string()),
            spells: None,
        },
        system: None,
    };

    let resolved = config.resolve_monsters_path(None);
    assert_eq!(resolved, "data/SW2.5/monsters.json");
}

#[test]
fn test_system_config_name() {
    let config = Config {
        data: DataConfig {
            monsters: MonstersConfig::Single("monsters.json".to_string()),
            spells: None,
        },
        system: Some(SystemConfig { name: None }),
    };
    assert!(config.system.unwrap().name.is_none());
}
