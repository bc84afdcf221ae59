use tls_driver::drain::Outgoing;
use tls_driver::driver::SessionError;

#[test]
fn partial_writes_concatenate_to_ciphertext() {
    let data: Vec<u8> = (0u8..50).collect();
    let mut q = Outgoing::new(data.clone());
    let mut wire: Vec<u8> = Vec::new();
    let mut writes = 0;
    while !q.is_drained() {
        let pending = q.pending();
        let n = pending.len().min(7);
        wire.extend_from_slice(&pending[..n]);
        q.advance(n).unwrap();
        writes += 1;
    }
    assert_eq!(writes, 8);
    assert_eq!(wire, data);
    assert!(q.pending().is_empty());
}

#[test]
fn pending_skips_accepted_bytes() {
    let mut q = Outgoing::new(vec![1, 2, 3, 4, 5]);
    q.advance(2).unwrap();
    assert_eq!(q.pending(), &[3, 4, 5]);
    assert!(!q.is_drained());
}

#[test]
fn zero_accept_is_transport_error() {
    let mut q = Outgoing::new(vec![9, 9, 9]);
    assert_eq!(q.advance(0), Err(SessionError::Transport));
    assert_eq!(q.pending(), &[9, 9, 9]);
}

#[test]
fn over_accept_is_transport_error() {
    let mut q = Outgoing::new(vec![1, 2, 3]);
    q.advance(1).unwrap();
    assert_eq!(q.advance(3), Err(SessionError::Transport));
    assert_eq!(q.pending(), &[2, 3]);
    q.advance(2).unwrap();
    assert!(q.is_drained());
}

#[test]
fn empty_queue_is_drained() {
    let q = Outgoing::new(Vec::new());
    assert!(q.is_drained());
    assert!(q.pending().is_empty());
}
