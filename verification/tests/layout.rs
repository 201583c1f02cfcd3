use arima_console::catalog::Mode;
use arima_console::layout::{
    folder_candidate, folder_name, join_path, layout_in, unique_folder, FolderStep, LAST_SUFFIX,
};
use std::collections::HashSet;
use std::path::Path;

fn search(base: &str, taken: &HashSet<String>) -> (String, u32) {
    let mut attempt: u32 = 1;
    let mut probes: u32 = 0;
    loop {
        let candidate = folder_candidate(base, attempt);
        probes += 1;
        match unique_folder(base, attempt, taken.contains(&candidate)) {
            FolderStep::Use(path) => return (path, probes),
            FolderStep::Try(next) => attempt = next,
        }
    }
}

#[test]
fn names_are_joined_as_paths_are() {
    for &(base, name) in &[
        ("resultados", "dados_tabnet.csv"),
        ("resultados/", "dados_tabnet.csv"),
        ("", "dados_tabnet.csv"),
        ("/", "x"),
        ("a/b", "c/d"),
        ("a/b", "/c"),
        ("a//", "b"),
        ("saída", "previsão.json"),
        ("a", ""),
        ("", ""),
    ] {
        let expected = Path::new(base).join(name).to_string_lossy().to_string();
        assert_eq!(join_path(base, name), expected, "{:?} {:?}", base, name);
    }
    assert_eq!(join_path("resultados", "x.csv"), "resultados/x.csv");
    assert_eq!(join_path("resultados/", "x.csv"), "resultados/x.csv");
    assert_eq!(join_path("", "x.csv"), "x.csv");
    assert_eq!(join_path("a", "/x.csv"), "/x.csv");
}

#[test]
fn folder_is_named_after_day_disease_and_analysis() {
    assert_eq!(
        folder_name("14-11-2023", "cardiovasculares", "obitos"),
        "14-11-2023-cardiovasculares-obitos"
    );
    assert_eq!(
        folder_name("01-01-1970", "Doença Renal - Crônica", "internacoes"),
        "01-01-1970-doena_renal_crnica-internacoes"
    );
    assert_eq!(folder_name("", "", ""), "--");
}

#[test]
fn candidates_carry_the_number_of_the_attempt() {
    assert_eq!(folder_candidate("out/run", 0), "out/run");
    assert_eq!(folder_candidate("out/run", 1), "out/run");
    assert_eq!(folder_candidate("out/run", 2), "out/run_2");
    assert_eq!(folder_candidate("out/run", 10), "out/run_10");
    assert_eq!(folder_candidate("out/run", 999), "out/run_999");
    assert_eq!(folder_candidate("out/run", 1000), "out/run_1000");
}

#[test]
fn a_free_base_is_used_as_it_is() {
    let taken: HashSet<String> = HashSet::new();
    assert_eq!(search("out/run", &taken), ("out/run".to_string(), 1));
    let others: HashSet<String> = ["out/run_2", "out/run_3"].iter().map(|s| s.to_string()).collect();
    assert_eq!(search("out/run", &others), ("out/run".to_string(), 1));
}

#[test]
fn the_smallest_free_suffix_is_used() {
    let mut taken: HashSet<String> = HashSet::new();
    taken.insert("out/run".to_string());
    assert_eq!(search("out/run", &taken), ("out/run_2".to_string(), 2));
    taken.insert("out/run_2".to_string());
    taken.insert("out/run_3".to_string());
    taken.insert("out/run_5".to_string());
    assert_eq!(search("out/run", &taken), ("out/run_4".to_string(), 4));
    for k in 2..=998u32 {
        taken.insert(format!("out/run_{}", k));
    }
    assert_eq!(search("out/run", &taken), ("out/run_999".to_string(), 999));
}

#[test]
fn the_base_is_used_again_when_every_suffix_is_taken() {
    let mut taken: HashSet<String> = HashSet::new();
    taken.insert("out/run".to_string());
    for k in 2..=999u32 {
        taken.insert(format!("out/run_{}", k));
    }
    assert_eq!(search("out/run", &taken), ("out/run".to_string(), 999));
}

#[test]
fn search_agrees_with_probing_in_turn() {
    for mask in 0u32..64 {
        let mut taken: HashSet<String> = HashSet::new();
        for bit in 0..6u32 {
            if mask & (1 << bit) != 0 {
                taken.insert(folder_candidate("b", bit + 1));
            }
        }
        let mut expected = "b".to_string();
        if taken.contains("b") {
            for i in 2..=999u32 {
                let candidate = format!("b_{}", i);
                if !taken.contains(&candidate) {
                    expected = candidate;
                    break;
                }
            }
        }
        assert_eq!(search("b", &taken).0, expected, "mask {}", mask);
    }
}

#[test]
fn single_steps() {
    assert!(matches!(unique_folder("b", 1, false), FolderStep::Use(p) if p == "b"));
    assert!(matches!(unique_folder("b", 1, true), FolderStep::Try(2)));
    assert!(matches!(unique_folder("b", 0, true), FolderStep::Try(2)));
    assert!(matches!(unique_folder("b", 2, true), FolderStep::Try(3)));
    assert!(matches!(unique_folder("b", 2, false), FolderStep::Use(p) if p == "b_2"));
    assert!(matches!(unique_folder("b", 998, true), FolderStep::Try(999)));
    assert!(matches!(unique_folder("b", 999, false), FolderStep::Use(p) if p == "b_999"));
    assert!(matches!(unique_folder("b", 999, true), FolderStep::Use(p) if p == "b"));
    assert!(matches!(unique_folder("b", 5000, true), FolderStep::Use(p) if p == "b"));
    assert_eq!(LAST_SUFFIX, 999);
}

#[test]
fn files_of_an_annual_run() {
    let layout = layout_in("out/run", Mode::Year);
    assert_eq!(layout.out_folder, "out/run");
    assert_eq!(layout.out_csv, "out/run/dados_tabnet.csv");
    assert_eq!(layout.out_clean, "out/run/dados_limpos.csv");
    assert_eq!(layout.out_json, "out/run/saida_previsao.json");
    assert_eq!(layout.out_csv_anual, "out/run/dados_tabnet_anual.csv");
    assert_eq!(layout.out_clean_anual, "out/run/dados_limpos_anual.csv");
    assert_eq!(layout.out_json_anual, "out/run/saida_previsao_anual.json");
    assert_eq!(layout.out_json_mensal, "out/run/saida_previsao_mensal.json");
}

#[test]
fn files_of_a_monthly_run() {
    let layout = layout_in("out/run_2", Mode::Month);
    assert_eq!(layout.out_folder, "out/run_2");
    assert_eq!(layout.out_csv, "out/run_2/dados_tabnet_mensal.csv");
    assert_eq!(layout.out_clean, "out/run_2/dados_limpos_mensal.csv");
    assert_eq!(layout.out_json, "out/run_2/saida_previsao_mensal.json");
    assert_eq!(layout.out_csv_anual, "out/run_2/dados_tabnet_anual.csv");
    assert_eq!(layout.out_clean_anual, "out/run_2/dados_limpos_anual.csv");
    assert_eq!(layout.out_json_anual, "out/run_2/saida_previsao_anual.json");
    assert_eq!(layout.out_json_mensal, "out/run_2/saida_previsao_mensal.json");
}
