use dotstate::move_to_common_validation::check_path_hierarchy_conflicts;
use dotstate::move_to_common_validation::MoveToCommonConflict;

fn generate_path_combinations() -> Vec<(String, Vec<String>)> {
    vec![
        (".nvim/init.lua".to_string(), vec![".nvim".to_string()]),
        (".nvim".to_string(), vec![".nvim/init.lua".to_string()]),
        (
            ".config/nvim".to_string(),
            vec![
                ".config/nvim/init.lua".to_string(),
                ".config/nvim/lua/config.lua".to_string(),
            ],
        ),
        (
            ".config/nvim/lua/plugins/init.lua".to_string(),
            vec![".config/nvim".to_string()],
        ),
        (
            ".nvim/config.lua".to_string(),
            vec![".nvim/init.lua".to_string()],
        ),
        ("./nvim/init.lua".to_string(), vec![".nvim".to_string()]),
        ("nvim/init.lua".to_string(), vec![".nvim".to_string()]),
        (
            ".config/nvim/init.lua".to_string(),
            vec![".config".to_string(), ".local".to_string()],
        ),
    ]
}

#[test]
fn test_path_combination_scenarios() {
    let combinations = generate_path_combinations();
    assert!(!combinations.is_empty(), "Should have test combinations");

    let has_bug_scenario = combinations.iter().any(|(path, synced)| {
        path.contains("nvim/init.lua") && synced.iter().any(|s| s.contains("nvim"))
    });
    assert!(has_bug_scenario, "Should test the original bug scenario");
}

/// The conflicts of each combination, which the paths alone decide.
#[test]
fn path_combinations_give_the_expected_conflicts() {
    let expected: Vec<Vec<(&str, bool)>> = vec![
        vec![(".nvim", true)],
        vec![(".nvim/init.lua", false)],
        vec![(".config/nvim/init.lua", false), (".config/nvim/lua/config.lua", false)],
        vec![(".config/nvim", true)],
        vec![],
        vec![],
        vec![],
        vec![(".config", true)],
    ];
    let combinations = generate_path_combinations();
    assert_eq!(combinations.len(), expected.len());
    for ((path, synced), want) in combinations.iter().zip(expected.iter()) {
        let conflicts = check_path_hierarchy_conflicts("/repo", "mine", "other", path, synced);
        let got: Vec<(String, bool)> = conflicts
            .iter()
            .map(|c| match c {
                MoveToCommonConflict::PathHierarchyConflict {
                    profile_name,
                    conflicting_path,
                    is_parent,
                } => {
                    assert_eq!(profile_name, "other");
                    (conflicting_path.clone(), *is_parent)
                }
                _ => panic!("Expected PathHierarchyConflict"),
            })
            .collect();
        let want: Vec<(String, bool)> = want.iter().map(|(p, b)| (p.to_string(), *b)).collect();
        assert_eq!(got, want, "moving {}", path);
    }
}
