use arm_dcc::{handshake, Handshake, TX_BUSY};

fn run_transfer(word: u32, statuses: &[u32]) -> Vec<Handshake> {
    let mut actions = Vec::new();
    for &s in statuses {
        let a = handshake(word, s);
        actions.push(a);
        if let Handshake::WriteData(_) = a {
            break;
        }
    }
    actions
}

#[test]
fn busy_bit_is_bit_29() {
    assert_eq!(TX_BUSY, 0x2000_0000);
}

#[test]
fn busy_status_polls_again() {
    assert_eq!(handshake(0x41, TX_BUSY), Handshake::ReadStatus);
    assert_eq!(handshake(0x41, u32::MAX), Handshake::ReadStatus);
}

#[test]
fn free_status_writes_the_word() {
    assert_eq!(handshake(0x41, 0), Handshake::WriteData(0x41));
    assert_eq!(handshake(7, !TX_BUSY), Handshake::WriteData(7));
    assert_eq!(handshake(0xdead_beef, 1 << 28), Handshake::WriteData(0xdead_beef));
}

#[test]
fn write_comes_only_after_a_free_read() {
    let statuses = [TX_BUSY, TX_BUSY | 1, TX_BUSY, 0, TX_BUSY, 0];
    let actions = run_transfer(0x5a, &statuses);
    assert_eq!(
        actions,
        vec![
            Handshake::ReadStatus,
            Handshake::ReadStatus,
            Handshake::ReadStatus,
            Handshake::WriteData(0x5a)
        ]
    );
}

#[test]
fn channel_never_free_never_writes() {
    let statuses = [TX_BUSY; 16];
    let actions = run_transfer(1, &statuses);
    assert_eq!(actions.len(), 16);
    assert!(actions.iter().all(|a| *a == Handshake::ReadStatus));
}
