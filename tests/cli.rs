use vshadow_rs::args::ArgsError;
use vshadow_rs::{panic_on_key_empty, parse_args, split_kv, Args};

fn strings(args: &[&str]) -> Vec<String> {
    args.iter().map(|s| s.to_string()).collect()
}

#[test]
fn test_kv() {
    assert_eq!(
        split_kv("-bc={file.xml}"),
        ("-bc".to_owned(), Some("{file.xml}".to_owned()))
    );

    assert_eq!(split_kv("-bc"), ("-bc".to_owned(), None));
    assert_eq!(split_kv("-bc="), ("-bc".to_owned(), None));
}

#[test]
fn split_kv_keeps_later_equal_signs() {
    assert_eq!(split_kv("-exec=a=b"), ("-exec".to_owned(), Some("a=b".to_owned())));
    assert_eq!(split_kv("=x"), ("".to_owned(), Some("x".to_owned())));
}

#[test]
fn empty_command_line_is_all_off() {
    let a = parse_args(&[]).unwrap();
    assert!(!a.create && !a.query && !a.delete && !a.all);
    assert!(a.volumes.is_empty());
    assert!(a.snapshot_id.is_none());
}

#[test]
fn default_args_are_all_off() {
    let a = Args::default();
    assert!(!a.create && !a.persistent && !a.wait && !a.tracing);
    assert!(a.writer_included.is_none() && a.volumes.is_empty());
}

#[test]
fn flags_switch_options_on() {
    let a = parse_args(&strings(&["-p", "-nw", "-wait", "-tracing"])).unwrap();
    assert!(a.create && a.persistent && a.no_wirters && a.wait && a.tracing);
    assert!(!a.query && !a.delete);

    let q = parse_args(&strings(&["-q"])).unwrap();
    assert!(q.query && q.all && !q.create);

    let d = parse_args(&strings(&["-da"])).unwrap();
    assert!(d.delete && d.all);

    let w = parse_args(&strings(&["-wm2"])).unwrap();
    assert!(w.writers && w.writer_meta2 && !w.writer_meta);
}

#[test]
fn keyed_options_set_values() {
    let a = parse_args(&strings(&["-s={1234}", "-exec=cmd.exe", "-rs=backup.xml"])).unwrap();
    assert!(a.query);
    assert_eq!(a.snapshot_id.as_deref(), Some("{1234}"));
    assert_eq!(a.exec_cmd.as_deref(), Some("cmd.exe"));
    assert!(a.wrestore && a.wr_simulate);
    assert_eq!(a.wr_file.as_deref(), Some("backup.xml"));
    assert!(!a.create);

    let d = parse_args(&strings(&["-dx={abcd}"])).unwrap();
    assert!(d.delete);
    assert_eq!(d.snapshot_set_id.as_deref(), Some("{abcd}"));
}

#[test]
fn last_value_wins() {
    let a = parse_args(&strings(&["-wi=one", "-wi=two"])).unwrap();
    assert!(a.create);
    assert_eq!(a.writer_included.as_deref(), Some("two"));
}

#[test]
fn bare_words_are_volumes() {
    let a = parse_args(&strings(&["c:", "-p", "d:"])).unwrap();
    assert!(a.create && a.persistent);
    assert_eq!(a.volumes, vec!["c:".to_string(), "d:".to_string()]);
}

#[test]
fn option_without_value_is_refused() {
    match parse_args(&strings(&["-p", "-s="])) {
        Err(ArgsError::EmptyValue(k)) => assert_eq!(k, "-s"),
        other => panic!("unexpected {:?}", other),
    }
    match parse_args(&strings(&["-unknown"])) {
        Err(ArgsError::EmptyValue(k)) => assert_eq!(k, "-unknown"),
        other => panic!("unexpected {:?}", other),
    }
}

#[test]
fn unknown_key_is_refused() {
    match parse_args(&strings(&["-zz=1", "-s="])) {
        Err(ArgsError::UnsupportedKey(k)) => assert_eq!(k, "-zz"),
        other => panic!("unexpected {:?}", other),
    }
}

#[test]
fn empty_key_error_names_the_key() {
    match panic_on_key_empty("-bc") {
        ArgsError::EmptyValue(k) => assert_eq!(k, "-bc"),
        other => panic!("unexpected {:?}", other),
    }
}
