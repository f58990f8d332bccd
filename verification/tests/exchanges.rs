use smartcard::exchange::CardStep;
use smartcard::get_data::GetDataExchange;
use smartcard::get_file::GetFileExchange;

/// Runs a GET DATA exchange against a scripted card; returns the result and
/// the commands sent.
fn run_get_data(tag: u8, auth: u8, answers: &[Vec<u8>]) -> (Vec<u8>, Vec<Vec<u8>>) {
    let (mut ex, mut step) = GetDataExchange::start(tag, auth);
    let mut sent = Vec::new();
    let mut answers = answers.iter();
    loop {
        match step {
            CardStep::Transmit(cmd) => {
                sent.push(cmd);
                let resp = answers.next().expect("the card was asked too often").clone();
                step = ex.step(resp);
            }
            CardStep::Finish(result) => {
                assert!(ex.is_finished());
                return (result, sent);
            }
        }
    }
}

/// Runs a file-reading exchange against a scripted card.
fn run_get_file(file_id: u32, answers: &[Vec<u8>]) -> (Vec<u8>, Vec<Vec<u8>>) {
    let (mut ex, mut step) = GetFileExchange::start(file_id);
    let mut sent = Vec::new();
    let mut answers = answers.iter();
    loop {
        match step {
            CardStep::Transmit(cmd) => {
                sent.push(cmd);
                let resp = answers.next().expect("the card was asked too often").clone();
                assert!(ex.accepts(&resp));
                step = ex.step(resp);
            }
            CardStep::Finish(result) => {
                assert!(ex.is_finished());
                return (result, sent);
            }
        }
    }
}

#[test]
fn get_data_success_at_once() {
    let (result, sent) = run_get_data(1, 0, &[vec![0x01, 0x02, 0x90, 0x00]]);
    assert_eq!(result, vec![0x01, 0x02, 0x90, 0x00]);
    assert_eq!(sent, vec![vec![0x80, 0xCA, 0x01, 0x01, 0x00]]);
}

#[test]
fn get_data_retries_with_card_length() {
    let (result, sent) = run_get_data(1, 0, &[vec![0x6C, 0x08], vec![1, 2, 3, 4, 5, 6, 7, 8, 0x90, 0x00]]);
    assert_eq!(result, vec![1, 2, 3, 4, 5, 6, 7, 8, 0x90, 0x00]);
    assert_eq!(sent, vec![vec![0x80, 0xCA, 0x01, 0x01, 0x00], vec![0x80, 0xCA, 0x01, 0x01, 0x08]]);
}

#[test]
fn get_data_retry_failure_returns_second_answer() {
    let (result, sent) = run_get_data(2, 1, &[vec![0x00, 0x6C, 0x05], vec![0x6A, 0x88]]);
    assert_eq!(result, vec![0x6A, 0x88]);
    assert_eq!(sent.len(), 2);
    assert_eq!(sent[1], vec![0x80, 0xCA, 0x11, 0x12, 0x05]);
}

#[test]
fn get_data_other_error_ends_at_once() {
    let (result, sent) = run_get_data(1, 0, &[vec![0x6A, 0x82]]);
    assert_eq!(result, vec![0x6A, 0x82]);
    assert_eq!(sent.len(), 1);
}

#[test]
fn get_data_never_sends_a_third_command() {
    let (result, sent) = run_get_data(1, 0, &[vec![0x6C, 0x02], vec![0x6C, 0x04]]);
    assert_eq!(result, vec![0x6C, 0x04]);
    assert_eq!(sent.len(), 2);
}

fn file_info(size: u16) -> Vec<u8> {
    vec![0x62, 0x00, 0x80, 0x02, (size >> 8) as u8, size as u8, 0x90, 0x00]
}

#[test]
fn get_file_reads_in_chunks() {
    // 0x1A0 bytes: two chunks of 0xD0.
    let chunk1 = {
        let mut v = vec![0x11; 0xD0];
        v.extend_from_slice(&[0x90, 0x00]);
        v
    };
    let chunk2 = {
        let mut v = vec![0x22; 0xD0];
        v.extend_from_slice(&[0x90, 0x00]);
        v
    };
    let (result, sent) = run_get_file(0x0132, &[file_info(0x1A0), chunk1.clone(), chunk2.clone()]);
    assert_eq!(
        sent,
        vec![
            vec![0x00, 0xA4, 0x08, 0x00, 0x02, 0x01, 0x32],
            vec![0x00, 0xB0, 0x00, 0x00, 0xD0],
            vec![0x00, 0xB0, 0x00, 0xD0, 0xD0],
        ]
    );
    let mut expected = vec![0x00];
    expected.extend_from_slice(&chunk1);
    expected.extend_from_slice(&chunk2);
    assert_eq!(result, expected);
}

#[test]
fn get_file_cuts_last_chunk() {
    let (result, sent) = run_get_file(1, &[file_info(0xE0), vec![0xAB, 0x90, 0x00], vec![0xCD, 0x90, 0x00]]);
    assert_eq!(sent[1], vec![0x00, 0xB0, 0x00, 0x00, 0xD0]);
    assert_eq!(sent[2], vec![0x00, 0xB0, 0x00, 0xD0, 0x10]);
    assert_eq!(sent.len(), 3);
    assert_eq!(result, vec![0x00, 0xAB, 0x90, 0x00, 0xCD, 0x90, 0x00]);
}

#[test]
fn get_file_empty_file() {
    let (result, sent) = run_get_file(1, &[file_info(0)]);
    assert_eq!(sent.len(), 1);
    assert_eq!(result, vec![0x00]);
}

#[test]
fn get_file_select_failure() {
    let (result, sent) = run_get_file(7, &[vec![0x6A, 0x82]]);
    assert_eq!(sent.len(), 1);
    assert_eq!(result, vec![0x00]);
}

#[test]
fn get_file_read_failure_keeps_data_so_far() {
    let (result, sent) = run_get_file(
        1,
        &[file_info(0x200), vec![0x01, 0x02, 0x90, 0x00], vec![0x69, 0x82]],
    );
    assert_eq!(sent.len(), 3);
    assert_eq!(result, vec![0x00, 0x01, 0x02, 0x90, 0x00]);
}

#[test]
fn get_file_get_response_answer_is_not_used() {
    // After 61 xx the GET RESPONSE is sent, but the decision is taken on the
    // SELECT answer, which is not a success.
    let (result, sent) = run_get_file(0x0132, &[vec![0x61, 0x1C], file_info(0x10)]);
    assert_eq!(sent[1], vec![0x00, 0xC0, 0x00, 0x00, 0x1C]);
    assert_eq!(sent.len(), 2);
    assert_eq!(result, vec![0x00]);
}

#[test]
fn get_file_bare_status_word_ends_reading() {
    // A two-byte answer has no status word for get_SW, so it is no success.
    let (result, sent) = run_get_file(1, &[file_info(0x20), vec![0x90, 0x00]]);
    assert_eq!(sent.len(), 2);
    assert_eq!(result, vec![0x00]);
}

#[test]
fn get_file_rejects_short_success_answer() {
    // A success answer too short to hold the file size cannot be taken.
    let (ex, _) = GetFileExchange::start(1);
    assert!(!ex.accepts(&vec![0x01, 0x90, 0x00]));
    assert!(ex.accepts(&vec![0x6A, 0x82]));
    assert!(ex.accepts(&file_info(3)));
}

#[test]
fn get_file_large_file_terminates() {
    let size: u16 = 0xFFFF;
    let mut answers = vec![file_info(size)];
    let chunks = (size as usize + 0xCF) / 0xD0;
    for _ in 0..chunks {
        answers.push(vec![0xAA, 0x90, 0x00]);
    }
    let (result, sent) = run_get_file(1, &answers);
    assert_eq!(sent.len(), 1 + chunks);
    assert_eq!(result.len(), 1 + 3 * chunks);
    assert_eq!(sent.last().unwrap()[4] as usize, size as usize - (chunks - 1) * 0xD0);
}
