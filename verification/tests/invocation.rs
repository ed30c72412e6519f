use netpwn::arch::ExecutableClass;
use netpwn::launch::{gdb_invocation, LaunchSpec};
use netpwn::template::syscall_routine;

fn sample(debug: bool, gdb_args: Option<&str>) -> LaunchSpec {
    LaunchSpec {
        program: "/bin/cat".to_string(),
        env: vec![("A".to_string(), "1".to_string())],
        debug,
        gdb_args: gdb_args.map(|s| s.to_string()),
    }
}

#[test]
fn invocation_layout_without_extra_args() {
    let launch = sample(true, None);
    let args = gdb_invocation(&launch, 5, ExecutableClass::SixtyFourBit);
    let stripped = syscall_routine(ExecutableClass::SixtyFourBit).replace("\n", "");
    let expected = vec![
        "-ex".to_string(),
        "set env A=1".to_string(),
        "-ex".to_string(),
        "start".to_string(),
        "-ex".to_string(),
        format!("compile code -raw -- int fd = 5;{}", stripped),
        "/bin/cat".to_string(),
    ];
    assert_eq!(args, expected);
}

#[test]
fn invocation_appends_extra_args_after_separator() {
    let launch = sample(true, Some("-q --nx"));
    let args = gdb_invocation(&launch, 5, ExecutableClass::SixtyFourBit);
    assert_eq!(args[args.len() - 2], "--");
    assert_eq!(args[args.len() - 1], "-q --nx");
}

#[test]
fn injected_fragment_matches_architecture() {
    let launch = sample(true, None);
    let args = gdb_invocation(&launch, 7, ExecutableClass::SixtyFourBit);
    let fragment = &args[5];
    assert!(fragment.starts_with("compile code -raw -- int fd = 7;"));
    assert!(fragment.contains("$33"));
    assert!(!fragment.contains("$63"));
    assert!(!fragment.contains('\n'));

    let args = gdb_invocation(&launch, 7, ExecutableClass::ThirtyTwoBit);
    let fragment = &args[5];
    assert!(fragment.contains("$63"));
    assert!(!fragment.contains("$33"));
}

#[test]
fn injected_fragment_embeds_exact_descriptor_number() {
    let launch = sample(true, None);
    let args = gdb_invocation(&launch, 1337, ExecutableClass::SixtyFourBit);
    assert!(args[5].starts_with("compile code -raw -- int fd = 1337;"));
}

#[test]
fn one_directive_per_environment_pair() {
    let mut launch = sample(true, None);
    launch.env = vec![
        ("A".to_string(), "1".to_string()),
        ("B".to_string(), "2".to_string()),
    ];
    let args = gdb_invocation(&launch, 3, ExecutableClass::SixtyFourBit);
    assert_eq!(args[0], "-ex");
    assert_eq!(args[1], "set env A=1");
    assert_eq!(args[2], "-ex");
    assert_eq!(args[3], "set env B=2");
    assert_eq!(args[4], "-ex");
    assert_eq!(args[5], "start");
}
