use rstb_runner::config::{normalize_cfg, normalize_path, Config, Src, Test};
use rstb_runner::paths::{has_prefix, has_suffix, is_absolute, path_join, str_equal};

#[test]
fn relative_paths_resolve_against_the_unit_directory() {
    let mut p = "rtl/alu.v".to_string();
    normalize_path(&mut p, "/proj/test_alu");
    assert_eq!(p, "/proj/test_alu/rtl/alu.v");
}

#[test]
fn absolute_paths_are_kept() {
    let mut p = "/other/place/alu.v".to_string();
    normalize_path(&mut p, "/proj/test_alu");
    assert_eq!(p, "/other/place/alu.v");
}

#[test]
fn normalize_cfg_rewrites_every_declared_source() {
    let mut cfg = Config {
        test: Test { toplevel: "tb_top".to_string() },
        src: Src {
            verilog: Some(vec!["a.v".to_string(), "/abs/b.v".to_string(), "sub/c.v".to_string()]),
            vhdl: Some(vec!["d.vhd".to_string(), "/abs/e.vhd".to_string()]),
        },
    };
    normalize_cfg(&mut cfg, "/proj/u_test");
    assert_eq!(cfg.test.toplevel, "tb_top");
    assert_eq!(
        cfg.src.verilog,
        Some(vec![
            "/proj/u_test/a.v".to_string(),
            "/abs/b.v".to_string(),
            "/proj/u_test/sub/c.v".to_string(),
        ])
    );
    assert_eq!(
        cfg.src.vhdl,
        Some(vec!["/proj/u_test/d.vhd".to_string(), "/abs/e.vhd".to_string()])
    );
}

#[test]
fn normalize_cfg_without_verilog_changes_nothing() {
    let mut cfg = Config {
        test: Test { toplevel: "top".to_string() },
        src: Src { verilog: None, vhdl: None },
    };
    normalize_cfg(&mut cfg, "/proj/u_test");
    assert_eq!(cfg.src.verilog, None);
    assert_eq!(cfg.src.vhdl, None);
}

#[test]
fn config_clone_preserves_every_field() {
    let cfg = Config {
        test: Test { toplevel: "tb".to_string() },
        src: Src { verilog: Some(vec!["x.v".to_string()]), vhdl: None },
    };
    let copy = cfg.clone();
    assert_eq!(copy.test.toplevel, cfg.test.toplevel);
    assert_eq!(copy.src.verilog, cfg.src.verilog);
    assert_eq!(copy.src.vhdl, cfg.src.vhdl);
}

#[test]
fn path_helpers() {
    assert_eq!(path_join("/a/b", "c"), "/a/b/c");
    assert!(is_absolute("/a"));
    assert!(!is_absolute("a/b"));
    assert!(!is_absolute(""));
    assert!(has_prefix("test_abc", "test_"));
    assert!(!has_prefix("tes", "test_"));
    assert!(has_suffix("abc_test", "_test"));
    assert!(!has_suffix("test", "_test"));
    assert!(str_equal("same", "same"));
    assert!(!str_equal("same", "sane"));
    assert!(!str_equal("same", "sam"));
}
