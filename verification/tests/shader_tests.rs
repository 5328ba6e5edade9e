use quadpipe::shader::{build_program, compile_outcome, link_outcome, BuildReport};

fn ok_report() -> BuildReport {
    BuildReport { created: true, status: true, info_log: None }
}

#[test]
fn successful_compile_yields_the_handle() {
    assert_eq!(compile_outcome(3, ok_report()), Ok(3));
}

#[test]
fn refused_creation_surfaces_the_fixed_message() {
    let report = BuildReport { created: false, status: false, info_log: None };
    assert_eq!(
        compile_outcome(3, report),
        Err(String::from("Unable to create shader object"))
    );
}

#[test]
fn failed_compile_surfaces_the_device_log() {
    let report = BuildReport {
        created: true,
        status: false,
        info_log: Some(String::from("0:12: syntax error")),
    };
    assert_eq!(compile_outcome(3, report), Err(String::from("0:12: syntax error")));
}

#[test]
fn failed_compile_without_log_surfaces_the_fallback() {
    let report = BuildReport { created: true, status: false, info_log: None };
    assert_eq!(
        compile_outcome(3, report),
        Err(String::from("Unknown error creating shader"))
    );
}

#[test]
fn failed_link_without_log_surfaces_the_program_fallback() {
    let report = BuildReport { created: true, status: false, info_log: None };
    assert_eq!(
        link_outcome(9, report),
        Err(String::from("Unknown error creating program object"))
    );
}

#[test]
fn successful_link_yields_the_handle() {
    assert_eq!(link_outcome(9, ok_report()), Ok(9));
}

#[test]
fn program_build_succeeds_only_when_every_step_does() {
    assert_eq!(build_program(1, ok_report(), 2, ok_report(), 9, ok_report()), Ok(9));
}

#[test]
fn program_build_stops_at_the_first_failure() {
    let bad = BuildReport {
        created: true,
        status: false,
        info_log: Some(String::from("bad fragment")),
    };
    assert_eq!(
        build_program(1, ok_report(), 2, bad, 9, ok_report()),
        Err(String::from("bad fragment"))
    );

    let no_vert = BuildReport { created: false, status: false, info_log: None };
    assert_eq!(
        build_program(1, no_vert, 2, ok_report(), 9, ok_report()),
        Err(String::from("Unable to create shader object"))
    );

    let bad_link = BuildReport { created: true, status: false, info_log: None };
    assert_eq!(
        build_program(1, ok_report(), 2, ok_report(), 9, bad_link),
        Err(String::from("Unknown error creating program object"))
    );
}
