use pacaptr::exec::tee::Tee;

fn run(chunks: &[&[u8]], mute: bool) -> (Vec<u8>, Vec<u8>) {
    let mut tee = Tee::new(mute);
    let mut live: Vec<u8> = Vec::new();
    for chunk in chunks {
        if let Some(bytes) = tee.feed(chunk) {
            live.extend_from_slice(bytes);
        }
    }
    (live, tee.finish())
}

#[test]
fn tee_of_no_chunk() {
    assert_eq!(run(&[], false), (vec![], vec![]));
    assert_eq!(run(&[], true), (vec![], vec![]));
}

#[test]
fn tee_of_one_chunk() {
    assert_eq!(run(&[b"hello\n"], false), (b"hello\n".to_vec(), b"hello\n".to_vec()));
}

#[test]
fn tee_of_many_chunks() {
    let (live, captured) = run(&[b"Hello\n", b"", b"World\n", b"!\n"], false);
    assert_eq!(captured, b"Hello\nWorld\n!\n".to_vec());
    assert_eq!(live, captured);
}

#[test]
fn muted_tee_captures_and_echoes_nothing() {
    let (live, captured) = run(&[b"Hello\n", b"World\n", b"!\n"], true);
    assert_eq!(captured, b"Hello\nWorld\n!\n".to_vec());
    assert!(live.is_empty());
    assert_eq!(run(&[b"x"], true), (vec![], b"x".to_vec()));
}

#[test]
fn tee_hands_back_the_chunk_itself() {
    let mut tee = Tee::new(false);
    assert!(!tee.is_mute());
    assert_eq!(tee.feed(&[1, 2, 3]), Some(&[1u8, 2, 3][..]));
    assert_eq!(tee.feed(&[]), Some(&[][..]));
    let mut muted = Tee::new(true);
    assert!(muted.is_mute());
    assert_eq!(muted.feed(&[1, 2, 3]), None);
}

#[test]
fn tee_take_starts_afresh() {
    let mut tee = Tee::new(false);
    tee.feed(&[1, 2]);
    tee.feed(&[3]);
    assert_eq!(tee.take(), vec![1, 2, 3]);
    assert_eq!(tee.take(), Vec::<u8>::new());
    tee.feed(&[4]);
    assert!(!tee.is_mute());
    assert_eq!(tee.finish(), vec![4]);
}
