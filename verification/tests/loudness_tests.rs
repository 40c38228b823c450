use burst_counter::loudness::{loudness_of_block, Loudness};
use burst_counter::state::AppState;

#[test]
fn all_zero_block_is_silence() {
    let block: Vec<i64> = vec![0, 0, 0, 0];
    assert_eq!(loudness_of_block(&block, 5000), Loudness::Silence);
}

#[test]
fn empty_block_is_silence() {
    let block: Vec<i64> = vec![];
    assert_eq!(loudness_of_block(&block, -3000), Loudness::Silence);
}

#[test]
fn block_with_one_nonzero_sample_is_finite() {
    let block: Vec<i64> = vec![0, 0, 7, 0];
    assert_eq!(loudness_of_block(&block, -12345), Loudness::Fin(-12345));
}

#[test]
fn negative_samples_count_as_sound() {
    let block: Vec<i64> = vec![-1];
    assert_eq!(loudness_of_block(&block, 0), Loudness::Fin(0));
}

#[test]
fn ingest_block_records_block_loudness() {
    let mut st = AppState::new(0, 60_000, false);
    let audible: Vec<i64> = vec![0, 250_000, -250_000];
    st.ingest_block(&audible, -9_000);
    assert_eq!(st.current_db, Loudness::Fin(-9_000));
    assert_eq!(st.baseline, Loudness::Fin(-9_000));

    let silent: Vec<i64> = vec![0, 0];
    st.ingest_block(&silent, 1_234);
    assert_eq!(st.current_db, Loudness::Silence);
    assert_eq!(st.baseline, Loudness::Silence);
}
