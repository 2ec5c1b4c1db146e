use singularity_llm::version::interpret_probe_output;
use singularity_llm::version::lowercased;
use singularity_llm::version::normalize_version;
use singularity_llm::version::strip_occurrences;

#[test]
fn plain_version_line_normalizes_to_the_number() {
    let raw = b"ollama version is 0.1.2\n".to_vec();
    assert_eq!(normalize_version(&raw), b"0.1.2".to_vec());
}

#[test]
fn case_is_folded_before_stripping() {
    let raw = b"Ollama Version is 0.1.2\n".to_vec();
    assert_eq!(normalize_version(&raw), b"0.1.2".to_vec());
}

#[test]
fn warnings_and_newlines_are_stripped() {
    let raw = b"ollama version is 0.5.1\nWarning: could not connect to a running Ollama instance\nWarning: client version is 0.5.1\n"
        .to_vec();
    assert_eq!(normalize_version(&raw), b"0.5.10.5.1".to_vec());
}

#[test]
fn lowercasing_touches_ascii_letters_only() {
    let raw = b"AbC-0.9_Z".to_vec();
    assert_eq!(lowercased(&raw), b"abc-0.9_z".to_vec());
}

#[test]
fn stripping_is_leftmost_and_non_overlapping() {
    let s = b"aaa".to_vec();
    let pat = b"aa".to_vec();
    assert_eq!(strip_occurrences(&s, &pat), b"a".to_vec());

    let s2 = b"xabcabcy".to_vec();
    let pat2 = b"abc".to_vec();
    assert_eq!(strip_occurrences(&s2, &pat2), b"xy".to_vec());
}

#[test]
fn an_empty_pattern_strips_nothing() {
    let s = b"abc".to_vec();
    assert_eq!(strip_occurrences(&s, &Vec::new()), b"abc".to_vec());
}

#[test]
fn failed_probe_reports_no_version() {
    assert_eq!(interpret_probe_output(false, Some(b"ollama version is 1.0\n".to_vec())), None);
    assert_eq!(interpret_probe_output(false, None), None);
}

#[test]
fn output_that_normalizes_to_nothing_reports_no_version() {
    assert_eq!(interpret_probe_output(true, Some(b"OLLAMA VERSION IS \n\n".to_vec())), None);
    assert_eq!(interpret_probe_output(true, Some(Vec::new())), None);
}

#[test]
fn undecodable_output_reports_the_placeholder() {
    assert_eq!(interpret_probe_output(true, None), Some(b"UNKNOWN".to_vec()));
}

#[test]
fn usable_output_reports_the_normalized_version() {
    let r = interpret_probe_output(true, Some(b"ollama version is 0.3.14\n".to_vec()));
    assert_eq!(r, Some(b"0.3.14".to_vec()));
}
