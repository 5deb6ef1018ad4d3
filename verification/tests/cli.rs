use spotifyimport::access_token::SP_DC_INSTRUCTIONS;
use spotifyimport::cli::{invocation, usage, Flags, Invocation};

fn flags(free: &[&str], help: bool, mutate: bool) -> Result<Flags, String> {
    Ok(Flags { free: free.iter().map(|s| s.to_string()).collect(), help, mutate })
}

#[test]
fn two_arguments_run_the_import() {
    assert_eq!(
        invocation(&flags(&["dc", "key"], false, false)),
        Invocation::Run { sp_dc: "dc".to_string(), sp_key: "key".to_string(), mutate: false }
    );
}

#[test]
fn mutate_flag_asks_for_changes() {
    assert_eq!(
        invocation(&flags(&["dc", "key"], false, true)),
        Invocation::Run { sp_dc: "dc".to_string(), sp_key: "key".to_string(), mutate: true }
    );
}

#[test]
fn help_flag_ends_with_status_0() {
    assert_eq!(
        invocation(&flags(&["dc", "key"], true, true)),
        Invocation::Usage { complaint: None, status: 0 }
    );
}

#[test]
fn wrong_number_of_arguments_ends_with_status_2() {
    for free in [&[][..], &["dc"][..], &["dc", "key", "more"][..]] {
        assert_eq!(
            invocation(&flags(free, false, false)),
            Invocation::Usage { complaint: None, status: 2 }
        );
    }
}

#[test]
fn wrong_number_of_arguments_comes_before_the_help_flag() {
    assert_eq!(
        invocation(&flags(&[], true, false)),
        Invocation::Usage { complaint: None, status: 2 }
    );
}

#[test]
fn unreadable_flags_end_with_the_complaint_and_status_2() {
    assert_eq!(
        invocation(&Err("Unrecognized option: 'x'".to_string())),
        Invocation::Usage { complaint: Some("Unrecognized option: 'x'".to_string()), status: 2 }
    );
}

#[test]
fn usage_names_the_program() {
    assert_eq!(
        usage("spotifyimport"),
        format!(
            "usage: spotifyimport [--mutate] <sp_dc> <sp_key>\n\nStandard input should be JSON from the\nhttps://scrobble.growl.space/api/v1/scrobbled API endpoint.\n\nTo obtain sp_dc and sp_key:\n{}",
            SP_DC_INSTRUCTIONS
        )
    );
}
