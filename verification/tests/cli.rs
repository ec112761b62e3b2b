use famo::cli::archive;
use famo::cli::command;
use famo::cli::watches;
use famo::cli::FamoError;
use famo::lang::detect;

fn rust() -> Option<famo::lang::Lang> {
    detect(&vec!["Cargo.toml".to_owned(), "Cargo.lock".to_owned()])
}

#[test]
fn given_values_win_over_the_profile() {
    let lang = rust();
    assert_eq!(archive(Some("dist"), &lang), Ok("dist"));
    assert_eq!(command(Some("make"), &lang), Ok("make"));
    assert_eq!(watches(Some(vec!["a", "b"]), &lang), Ok(vec!["a", "b"]));
}

#[test]
fn the_profile_gives_the_defaults() {
    let lang = rust();
    assert_eq!(archive(None, &lang), Ok("target"));
    assert_eq!(command(None, &lang), Ok("cargo build"));
    assert_eq!(watches(None, &lang), Ok(vec!["Cargo.toml", "Cargo.lock"]));
}

#[test]
fn given_values_need_no_profile() {
    assert_eq!(archive(Some("dist"), &None), Ok("dist"));
    assert_eq!(command(Some("make"), &None), Ok("make"));
    assert_eq!(watches(Some(vec![]), &None), Ok(vec![]));
}

#[test]
fn a_missing_archive_directory_is_an_error() {
    assert_eq!(
        archive(None, &None),
        Err(FamoError::MissedOption {
            description: "Archived directory is not specified. (--archive=[directory])\n\
                          You can see help messages by 'famo -h'"
                .to_owned()
        })
    );
}

#[test]
fn a_missing_watch_list_is_an_error() {
    assert_eq!(
        watches(None, &None),
        Err(FamoError::MissedOption {
            description: "Watched files are not specified.\nYou can see help messages by 'famo -h'"
                .to_owned()
        })
    );
}

#[test]
fn a_missing_build_command_is_an_error() {
    assert_eq!(
        command(None, &None),
        Err(FamoError::MissedOption {
            description: "Build command is not specified. (--command=\"build command\")\n\
                          You can see help messages by 'famo -h'"
                .to_owned()
        })
    );
}
