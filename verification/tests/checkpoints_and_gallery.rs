use mandingo_forge::checkpoints::{has_checkpoint_extension, select_by_lowercase, select_checkpoints};
use mandingo_forge::gallery::{decode_image, image_data_from, metadata_file_name, saved_message};
use mandingo_forge::greeting::greet;

fn names(v: &[&str]) -> Vec<String> {
    v.iter().map(|s| s.to_string()).collect()
}

#[test]
fn extensions() {
    for ok in ["a.safetensors", "b.ckpt", "c.pt", "d.pth", "e.bin", "f.gguf", ".pt"] {
        assert!(has_checkpoint_extension(ok), "{}", ok);
    }
    for bad in ["a.txt", "safetensors", "a.PT", "a.pt.yaml", ""] {
        assert!(!has_checkpoint_extension(bad), "{}", bad);
    }
}

#[test]
fn selection_filters_case_insensitively_and_sorts() {
    let input = names(&[
        "zeta.safetensors", "README.md", "Alpha.CKPT", "beta.pt", "notes.txt", "gamma.GGUF",
        "beta.pt", "model.C\u{212A}PT", "x.pth.bak",
    ]);
    let got = select_checkpoints(&input);
    let mut expected: Vec<String> = input
        .iter()
        .filter(|n| {
            let l = n.to_lowercase();
            [".safetensors", ".ckpt", ".pt", ".pth", ".bin", ".gguf"].iter().any(|e| l.ends_with(e))
        })
        .cloned()
        .collect();
    expected.sort();
    assert_eq!(got, expected);
    assert_eq!(
        got,
        names(&["Alpha.CKPT", "beta.pt", "beta.pt", "gamma.GGUF", "model.C\u{212A}PT", "zeta.safetensors"])
    );
}

#[test]
fn selection_by_given_lowercase_names() {
    let input = names(&["Zed.BIN", "a.txt", "B.Pt", "c"]);
    let lowered = names(&["zed.bin", "a.txt", "b.pt", "c.gguf"]);
    assert_eq!(select_by_lowercase(&input, &lowered), names(&["B.Pt", "Zed.BIN", "c"]));
}

#[test]
fn selection_of_nothing() {
    assert!(select_checkpoints(&Vec::new()).is_empty());
    assert!(select_checkpoints(&names(&["a.txt"])).is_empty());
}

#[test]
fn selection_is_idempotent_on_examples() {
    let input = names(&["b.bin", "a.pt", "ä.gguf", "A.pt", "c.txt"]);
    let once = select_checkpoints(&input);
    assert_eq!(select_checkpoints(&once), once);
}

#[test]
fn decoding_image_data() {
    assert_eq!(decode_image("aGVsbG8=").unwrap(), b"hello".to_vec());
    assert_eq!(decode_image("").unwrap(), Vec::<u8>::new());
    let err = decode_image("not base64!").unwrap_err();
    assert!(err.starts_with("Invalid base64 image data: "));
    assert_eq!(err, "Invalid base64 image data: Invalid symbol 32, offset 3.");
    assert_eq!(decode_image("aGVsbG8").unwrap_err(), "Invalid base64 image data: Invalid padding");
}

#[test]
fn image_data_maps_errors() {
    assert_eq!(image_data_from(Ok(vec![1, 2])).unwrap(), vec![1, 2]);
    assert_eq!(
        image_data_from(Err("Invalid padding".to_string())).unwrap_err(),
        "Invalid base64 image data: Invalid padding"
    );
}

#[test]
fn metadata_names() {
    assert_eq!(metadata_file_name("gen_001.png"), "gen_001.json");
    assert_eq!(metadata_file_name("a.png.png"), "a.json.json");
    assert_eq!(metadata_file_name("photo.jpg"), "photo.jpg");
    assert_eq!(metadata_file_name("UPPER.PNG"), "UPPER.PNG");
}

#[test]
fn saved_messages() {
    assert_eq!(saved_message("gen.png", "gen.json"), "Saved to gallery/gen.png + gen.json");
}

#[test]
fn greeting() {
    assert_eq!(
        greet("Ada"),
        "Hello, Ada! You've been greeted from Rust (MandingoForge IPC)."
    );
}
