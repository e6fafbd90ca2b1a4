//! Lifecycle tests for the DMA memory-copy controller.

use imxrt_hal::dma::{Channel, Linear, Memcpy, TransferError};

fn fresh_memcpy() -> Memcpy<u8, Linear<u8>, Linear<u8>> {
    Memcpy::new(Channel::new())
}

#[test]
fn transfer_from_idle_completes() {
    let mut memcpy = fresh_memcpy();
    let source = Linear::new(vec![8u8; 3]);
    let destination = Linear::new(vec![0u8; 2]);

    assert!(memcpy.transfer(source, destination).is_ok());
    assert!(memcpy.is_complete());

    let (source, destination) = memcpy.complete().expect("buffers owned");
    assert_eq!(source.as_elements().as_slice(), &[8u8; 3]);
    assert_eq!(destination.as_elements().len(), 2);

    let channel = memcpy.take();
    assert!(!channel.enabled);
    assert!(!channel.complete);
    assert_eq!(channel.minor_loop_elements, 2);
}

#[test]
fn transfer_while_outstanding_rejected() {
    let mut channel = Channel::new();
    channel.completes_immediately = false;
    let mut memcpy: Memcpy<u8, Linear<u8>, Linear<u8>> = Memcpy::new(channel);

    let first_source = Linear::new(vec![1u8, 2, 3]);
    let first_destination = Linear::new(vec![0u8; 3]);
    assert!(memcpy.transfer(first_source, first_destination).is_ok());
    assert!(memcpy.is_active());

    let second_source = Linear::new(vec![7u8, 7]);
    let second_destination = Linear::new(vec![9u8; 4]);
    let expected_source = second_source.clone();
    let expected_destination = second_destination.clone();

    match memcpy.transfer(second_source, second_destination) {
        Err((source, destination, TransferError::ScheduledTransfer)) => {
            assert_eq!(source, expected_source);
            assert_eq!(destination, expected_destination);
        },
        _ => panic!("expected the admission-conflict error"),
    }
}

#[test]
fn transferred_count_is_min_of_lengths() {
    let mut memcpy = fresh_memcpy();

    let mut source = Linear::new(vec![8u8; 32]);
    let mut destination = Linear::new(vec![0u8; 64]);
    source.set_transfer_len(14);
    destination.set_transfer_len(12);

    assert!(memcpy.transfer(source, destination).is_ok());
    assert!(memcpy.complete().is_some());

    let channel = memcpy.take();
    assert_eq!(channel.minor_loop_elements, 12);
    assert_eq!(channel.transfer_iterations, 1);
}

#[test]
fn zero_length_transfer_is_admitted() {
    let mut memcpy = fresh_memcpy();
    let source = Linear::new(Vec::new());
    let destination = Linear::new(vec![5u8; 4]);

    assert!(memcpy.transfer(source, destination).is_ok());
    assert!(memcpy.complete().is_some());
    assert_eq!(memcpy.take().minor_loop_elements, 0);
}

#[test]
fn complete_before_ready_acts_as_cancel() {
    let mut stalled = Channel::new();
    stalled.completes_immediately = false;

    let mut completed: Memcpy<u8, Linear<u8>, Linear<u8>> = Memcpy::new(stalled);
    let mut cancelled: Memcpy<u8, Linear<u8>, Linear<u8>> = Memcpy::new(stalled);

    let source = Linear::new(vec![3u8; 5]);
    let destination = Linear::new(vec![0u8; 5]);
    assert!(completed.transfer(source.clone(), destination.clone()).is_ok());
    assert!(cancelled.transfer(source.clone(), destination.clone()).is_ok());
    assert!(!completed.is_complete());

    let from_complete = completed.complete();
    let from_cancel = cancelled.cancel();
    assert_eq!(from_complete, Some((source.clone(), destination.clone())));
    assert_eq!(from_complete, from_cancel);
    assert_eq!(completed.take(), cancelled.take());
}

#[test]
fn cancel_without_transfer_is_noop() {
    let mut memcpy = fresh_memcpy();
    assert_eq!(memcpy.cancel(), None);
    assert_eq!(memcpy.cancel(), None);
    assert_eq!(memcpy.cancel(), None);
    assert!(!memcpy.take().enabled);
}

#[test]
fn complete_admits_a_new_transfer() {
    let mut memcpy = fresh_memcpy();

    let source = Linear::new(vec![1u8; 4]);
    let destination = Linear::new(vec![0u8; 4]);
    assert!(memcpy.transfer(source, destination).is_ok());

    let (source, destination) = memcpy.complete().expect("buffers owned");
    assert!(memcpy.transfer(source, destination).is_ok());
    assert!(memcpy.complete().is_some());
}

#[test]
fn setup_failure_returns_status_and_buffers() {
    let mut channel = Channel::new();
    channel.fault_on_start = Some(0x1234_5678);
    let mut memcpy: Memcpy<u8, Linear<u8>, Linear<u8>> = Memcpy::new(channel);

    let source = Linear::new(vec![6u8; 8]);
    let destination = Linear::new(vec![0u8; 8]);

    match memcpy.transfer(source.clone(), destination.clone()) {
        Err((returned_source, returned_destination, TransferError::Setup(status))) => {
            assert_eq!(status.raw, 0x1234_5678);
            assert_eq!(returned_source, source);
            assert_eq!(returned_destination, destination);
        },
        _ => panic!("expected the setup-failure error"),
    }

    // The error flag was acknowledged, the status stays latched, and the
    // controller kept nothing.
    assert_eq!(memcpy.cancel(), None);
    let channel = memcpy.take();
    assert!(!channel.error);
    assert_eq!(channel.error_status, 0x1234_5678);
}

#[test]
fn setup_failure_leaves_channel_scheduled_until_cancel() {
    let mut channel = Channel::new();
    channel.fault_on_start = Some(1);
    let mut memcpy: Memcpy<u8, Linear<u8>, Linear<u8>> = Memcpy::new(channel);

    let source = Linear::new(vec![1u8; 2]);
    let destination = Linear::new(vec![0u8; 2]);
    let (source, destination, _) = memcpy
        .transfer(source, destination)
        .expect_err("fault injected");

    // The failed arm left the request enable set, so a resubmission is
    // rejected until the channel is cancelled.
    let (source, destination, error) = memcpy
        .transfer(source, destination)
        .expect_err("channel still scheduled");
    assert!(matches!(error, TransferError::ScheduledTransfer));

    assert_eq!(memcpy.cancel(), None);
    assert!(memcpy.transfer(source, destination).is_ok());
}

#[test]
fn linear_set_element_and_transfer_len() {
    let mut buffer = Linear::new(vec![0u8; 4]);
    buffer.set_element(0, 11);
    buffer.set_element(3, 44);
    assert_eq!(buffer.as_elements().as_slice(), &[11, 0, 0, 44]);
    buffer.set_transfer_len(2);

    let mut memcpy = fresh_memcpy();
    assert!(memcpy.transfer(buffer, Linear::new(vec![0u8; 9])).is_ok());
    assert!(memcpy.complete().is_some());
    assert_eq!(memcpy.take().minor_loop_elements, 2);
}
