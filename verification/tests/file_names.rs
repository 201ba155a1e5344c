//! Names of processed files.

use std::path::PathBuf;

use audio_tools::host::{file_label, file_name_or_path};
use audio_tools::paths::{
    processed_file_name, processed_output_path, sanitized_clip_id, FilePath,
};

/// The text of the path that a clip of a source is written to.
fn output(source: &str, clip_id: &str) -> String {
    processed_output_path(&FilePath::new(source), clip_id).to_text()
}

#[test]
fn processed_path_is_unique_per_clip_and_stable_on_reapply() {
    let first = processed_output_path(&FilePath::new("/tmp/kick.wav"), "clip-3");
    assert_eq!(first.to_text(), "/tmp/kick.clip-3.processed.wav");
    assert_eq!(
        processed_output_path(&FilePath::new("/tmp/kick.clip-3.processed.wav"), "clip-3").to_text(),
        "/tmp/kick.clip-3.processed.wav"
    );
    assert_eq!(processed_output_path(&first, "clip-3").to_text(), first.to_text());
    assert_ne!(
        processed_output_path(&FilePath::new("/tmp/kick.wav"), "clip-3").to_text(),
        processed_output_path(&FilePath::new("/tmp/kick.wav"), "clip-4").to_text()
    );
}

#[test]
fn tags_keep_letters_digits_and_dashes() {
    assert_eq!(sanitized_clip_id("clip-3"), "clip-3");
    assert_eq!(sanitized_clip_id("Clip-XYZ-09"), "Clip-XYZ-09");
    assert_eq!(sanitized_clip_id("a_b"), "a_b");
    assert_eq!(sanitized_clip_id("Clip 3/ü"), "Clip~0000203~00002f~0000fc");
    assert_eq!(sanitized_clip_id("a.b"), "a~00002eb");
    assert_eq!(sanitized_clip_id("~"), "~00007e");
    assert_eq!(sanitized_clip_id("\u{10ffff}"), "~10ffff");
    assert_eq!(sanitized_clip_id(""), "clip~");
}

#[test]
fn no_two_clips_share_a_tag_or_a_file() {
    let ids = ["", "clip", "clip~", "a b", "a_b", "a.b", "a~00002eb", "a-b", "ab", "ü", "u"];
    for (i, one) in ids.iter().enumerate() {
        for other in &ids[i + 1..] {
            assert_ne!(sanitized_clip_id(one), sanitized_clip_id(other));
            assert_ne!(processed_file_name("kick", one), processed_file_name("kick", other));
            for source in ["/tmp/kick.wav", "kick", "", "/", "a\\b:c.wav", "//x//y/", "..", "a/."] {
                assert_ne!(
                    output(source, one),
                    output(source, other)
                );
            }
        }
    }
}

#[test]
fn marks_of_earlier_passes_are_not_stacked() {
    assert_eq!(processed_file_name("kick", "7"), "kick.7.processed.wav");
    assert_eq!(processed_file_name("kick-processed", "7"), "kick.7.processed.wav");
    assert_eq!(processed_file_name("kick.7.processed", "7"), "kick.7.processed.wav");
    assert_eq!(
        processed_file_name("kick-processed.7.processed", "7"),
        "kick.7.processed.wav"
    );
    assert_eq!(
        processed_file_name("kick.8.processed", "7"),
        "kick.8.processed.7.processed.wav"
    );
    assert_eq!(processed_file_name("processed", "7"), "processed.7.processed.wav");
    assert_eq!(processed_file_name("", ""), ".clip~.processed.wav");
}

#[test]
fn a_second_pass_replaces_the_file_of_the_first() {
    let first = output("/tmp/a-processed-processed.wav", "clip-3");
    assert_eq!(first, "/tmp/a.clip-3.processed.wav");
    assert_eq!(output(&first, "clip-3"), first);
    for source in [
        "/tmp/a-processed-processed-processed.wav",
        "-processed-processed",
        "a.7.processed-processed.wav",
        "a-processed.7.processed.7.processed.wav",
        "a.7.processed.7.processed.wav",
        "",
        "/",
        "takes/..",
        "takes//./kick.wav",
        "//takes/kick.wav/",
        "takes\\kick.wav",
        "C:kick.wav",
        ".hidden",
    ] {
        for id in ["7", "", "a.b", "processed"] {
            let once = processed_output_path(&FilePath::new(source), id);
            let again = processed_output_path(&once, id);
            assert_eq!(again.to_text(), once.to_text());
        }
    }
}

#[test]
fn whatever_the_source_the_file_ends_in_the_clip_and_the_mark() {
    for source in ["", "/", ".", "..", "//", "//?/x", "\\\\.\\x", "C:", "a:b", "a//b//", "a/./b/."] {
        assert!(output(source, "a.b").ends_with(".a~00002eb.processed.wav"));
    }
}

#[test]
fn parts_that_a_platform_passes_over() {
    assert_eq!(output("takes/kick.wav/", "7"), "takes/kick.7.processed.wav");
    assert_eq!(output("takes//kick.wav", "7"), "takes/kick.7.processed.wav");
    assert_eq!(output("./kick.wav", "7"), "./kick.7.processed.wav");
    assert_eq!(output(".", "7"), "./clip.7.processed.wav");
    for (source, expected) in [
        ("//x", "/x.7.processed.wav"),
        ("///a/b.wav", "/a/b.7.processed.wav"),
        ("//a/b/c.wav", "/a/b/c.7.processed.wav"),
        ("a/./b.wav/.", "a/b.7.processed.wav"),
    ] {
        assert_eq!(PathBuf::from(output(source, "7")), PathBuf::from(expected));
    }
}

#[test]
fn the_file_stays_in_its_directory() {
    assert_eq!(output("kick.wav", "7"), "kick.7.processed.wav");
    assert_eq!(output("/kick.wav", "7"), "/kick.7.processed.wav");
    assert_eq!(
        output("../takes/kick.flac", "7"),
        "../takes/kick.7.processed.wav"
    );
    assert_eq!(
        output("/takes/kick.final.mix.aif", "7"),
        "/takes/kick.final.mix.7.processed.wav"
    );
    assert_eq!(output("/takes/.hidden", "7"), "/takes/.hidden.7.processed.wav");
    assert_eq!(output("/takes/noext", "7"), "/takes/noext.7.processed.wav");
}

#[test]
fn a_source_without_a_file_name_counts_as_clip() {
    assert_eq!(output("", "7"), "clip.7.processed.wav");
    assert_eq!(output("/", "7"), "/clip.7.processed.wav");
    assert_eq!(output("takes/..", "7"), "takes/../clip.7.processed.wav");
    assert_eq!(output("..", ""), "../clip.clip~.processed.wav");
}

#[test]
fn files_without_a_name_are_labelled_by_their_path() {
    assert_eq!(file_label(&"".to_string()), "");
    assert_eq!(file_label(&"/".to_string()), "/");
    assert_eq!(file_label(&"takes/..".to_string()), "takes/..");
}

#[test]
fn files_are_labelled_by_their_name() {
    assert_eq!(file_label(&"/tmp/takes/kick.wav".to_string()), "kick.wav");
    assert_eq!(file_label(&"kick.wav".to_string()), "kick.wav");
    assert_eq!(file_label(&"//takes//kick.wav/".to_string()), "kick.wav");
    assert_eq!(file_label(&"takes/kick.wav/.".to_string()), "kick.wav");
    assert_eq!(file_label(&"///takes/kick.wav".to_string()), "kick.wav");
    assert_eq!(file_name_or_path(None, &"..".to_string()), "..");
    assert_eq!(
        file_name_or_path(Some("a.wav".to_string()), &"/x/a.wav".to_string()),
        "a.wav"
    );
}
