use qayeq::download::naming::unique_filename;

fn names(list: &[&str]) -> Vec<String> {
    list.iter().map(|s| s.to_string()).collect()
}

#[test]
fn a_free_name_is_kept() {
    assert_eq!(unique_filename("report.pdf", &names(&[]), 7), "report.pdf");
    assert_eq!(unique_filename("report.pdf", &names(&["other.pdf", "report.(1).pdf"]), 7), "report.pdf");
}

#[test]
fn the_first_free_number_is_taken() {
    let taken = names(&["report.pdf", "report.(1).pdf"]);
    assert_eq!(unique_filename("report.pdf", &taken, 7), "report.(2).pdf");
    let gap = names(&["report.pdf", "report.(2).pdf"]);
    assert_eq!(unique_filename("report.pdf", &gap, 7), "report.(1).pdf");
}

#[test]
fn the_number_goes_before_the_last_extension() {
    assert_eq!(unique_filename("a.tar.gz", &names(&["a.tar.gz"]), 7), "a.tar.(1).gz");
    assert_eq!(unique_filename("README", &names(&["README"]), 7), "README.(1)");
    assert_eq!(unique_filename(".bashrc", &names(&[".bashrc"]), 7), ".(1).bashrc");
    assert_eq!(unique_filename("x.", &names(&["x."]), 7), "x.(1).");
}

#[test]
fn numbers_run_to_999_and_then_the_timestamp_names_the_file() {
    let mut taken = names(&["file.txt"]);
    for n in 1..999 {
        taken.push(format!("file.({}).txt", n));
    }
    assert_eq!(unique_filename("file.txt", &taken, 1700000000), "file.(999).txt");
    taken.push("file.(999).txt".to_string());
    assert_eq!(unique_filename("file.txt", &taken, 1700000000), "file.1700000000.txt");
    let mut bare = names(&["file"]);
    for n in 1..1000 {
        bare.push(format!("file.({})", n));
    }
    assert_eq!(unique_filename("file", &bare, 0), "file.0");
}
