use minion::linux::error::IpcError;
use minion::linux::ipc::{
    chunk_count, recv, recv_fds, recv_header, send, send_fds, ControlMessage,
};

#[test]
fn header_is_little_endian_length() {
    let frame = send(b"{\"pid\":7}".to_vec());
    assert_eq!(frame.header, vec![9, 0, 0, 0, 0, 0, 0, 0]);
    assert_eq!(frame.body, b"{\"pid\":7}".to_vec());
    let big = send(vec![0u8; 0x0102]);
    assert_eq!(big.header, vec![2, 1, 0, 0, 0, 0, 0, 0]);
    let empty = send(vec![]);
    assert_eq!(empty.header, vec![0; 8]);
}

#[test]
fn frames_round_trip() {
    for len in [0usize, 1, 7, 8, 255, 256, 70000] {
        let message: Vec<u8> = (0..len).map(|i| (i % 251) as u8).collect();
        let frame = send(message.clone());
        assert_eq!(recv_header(&frame.header).unwrap(), len);
        assert_eq!(recv(&frame.header, frame.body).unwrap(), message);
    }
}

#[test]
fn short_datagrams_are_the_end() {
    assert!(matches!(recv_header(&vec![1, 2, 3]), Err(IpcError::UnexpectedEof)));
    assert!(matches!(recv_header(&vec![]), Err(IpcError::UnexpectedEof)));
    assert!(matches!(recv_header(&vec![0; 9]), Err(IpcError::UnexpectedEof)));
    let header = vec![3, 0, 0, 0, 0, 0, 0, 0];
    assert!(matches!(recv(&header, vec![1, 2]), Err(IpcError::UnexpectedEof)));
    assert!(matches!(recv(&header, vec![1, 2, 3, 4]), Err(IpcError::UnexpectedEof)));
    assert_eq!(recv(&header, vec![1, 2, 3]).unwrap(), vec![1, 2, 3]);
}

#[test]
fn descriptors_travel_in_chunks_of_eight() {
    let fds: Vec<i32> = (10..30).collect();
    let chunks = send_fds(&fds);
    assert_eq!(chunks.len(), 3);
    assert_eq!(chunks[0], (10..18).collect::<Vec<_>>());
    assert_eq!(chunks[1], (18..26).collect::<Vec<_>>());
    assert_eq!(chunks[2], (26..30).collect::<Vec<_>>());
    assert!(send_fds(&vec![]).is_empty());
    assert_eq!(send_fds(&vec![1]), vec![vec![1]]);
    assert_eq!(send_fds(&(0..8).collect()), vec![(0..8).collect::<Vec<i32>>()]);
    assert_eq!(send_fds(&(0..9).collect()).len(), 2);
    assert_eq!(send_fds(&(0..16).collect()).len(), 2);
}

#[test]
fn descriptors_round_trip() {
    for n in [0usize, 1, 3, 8, 9, 16, 17, 40] {
        let fds: Vec<i32> = (0..n as i32).map(|i| 100 + i).collect();
        let messages: Vec<Option<ControlMessage>> =
            send_fds(&fds).into_iter().map(|c| Some(ControlMessage::ScmRights(c))).collect();
        assert_eq!(recv_fds(n, &messages).unwrap(), fds);
    }
}

#[test]
fn wrong_ancillary_data_is_refused() {
    let three = || Some(ControlMessage::ScmRights(vec![1, 2, 3]));
    assert!(matches!(recv_fds(3, &vec![None]), Err(IpcError::Ancillary)));
    assert!(matches!(recv_fds(3, &vec![Some(ControlMessage::Other)]), Err(IpcError::Ancillary)));
    assert!(matches!(recv_fds(2, &vec![three()]), Err(IpcError::Ancillary)));
    assert!(matches!(recv_fds(4, &vec![three()]), Err(IpcError::Ancillary)));
    assert!(matches!(recv_fds(3, &vec![]), Err(IpcError::Ancillary)));
    assert_eq!(recv_fds(3, &vec![three()]).unwrap(), vec![1, 2, 3]);
    assert_eq!(recv_fds(0, &vec![]).unwrap(), Vec::<i32>::new());
    let nine = vec![
        Some(ControlMessage::ScmRights((0..8).collect())),
        Some(ControlMessage::ScmRights(vec![8, 9])),
    ];
    assert!(matches!(recv_fds(9, &nine), Err(IpcError::Ancillary)));
    assert_eq!(recv_fds(10, &nine).unwrap(), (0..10).collect::<Vec<i32>>());
}

#[test]
fn datagrams_needed() {
    for (n, expected) in [(0, 0), (1, 1), (7, 1), (8, 1), (9, 2), (16, 2), (17, 3)] {
        assert_eq!(chunk_count(n), expected);
        assert_eq!(send_fds(&(0..n as i32).collect()).len(), expected);
    }
    assert_eq!(chunk_count(usize::MAX), usize::MAX / 8 + 1);
}
