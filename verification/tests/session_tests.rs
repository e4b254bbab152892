use sid_device::player::PlayerCommand;
use sid_device::session::SidDeviceServerThread;

fn fresh() -> SidDeviceServerThread {
    let (thread, commands) = SidDeviceServerThread::new(false, Some(24));
    assert_eq!(commands.len(), 2);
    assert_eq!(commands[0], (PlayerCommand::DisableDigiboost, None));
    assert_eq!(commands[1], (PlayerCommand::SetFilterBias6581, Some(24)));
    thread
}

/// Fill the queue past half capacity so back-pressure sets in.
fn fill_past_half(thread: &mut SidDeviceServerThread) {
    for _ in 0..32769 {
        thread.player.write_to_sid(0x00, 0x00, 0);
    }
    assert!(thread.player.queue_len() > 32768);
}

#[test]
fn handshake_returns_version() {
    let mut t = fresh();
    let out = t.process_command(&vec![7, 0, 0, 0], false);
    assert_eq!(out.response, vec![4, 4]);
    assert!(!out.close);
    assert!(!out.await_read);
    assert!(out.commands.is_empty());
    assert!(!out.restart_renderer);
}

#[test]
fn config_count_is_two() {
    let mut t = fresh();
    let out = t.process_command(&vec![10, 0, 0, 0], false);
    assert_eq!(out.response, vec![5, 2]);
}

#[test]
fn config_info_names_the_models() {
    let mut t = fresh();
    let out = t.process_command(&vec![11, 0, 0, 0], false);
    let mut expected = vec![6u8, 0];
    expected.extend_from_slice(b"reSID Device (6581)\0");
    assert_eq!(out.response, expected);

    let out = t.process_command(&vec![11, 1, 0, 0], false);
    let mut expected = vec![6u8, 1];
    expected.extend_from_slice(b"reSID Device (8580)\0");
    assert_eq!(out.response, expected);
}

#[test]
fn unknown_command_is_an_error() {
    let mut t = fresh();
    let out = t.process_command(&vec![19, 0, 0, 0], false);
    assert_eq!(out.response, vec![2]);
    let out = t.process_command(&vec![255, 0, 0, 0], false);
    assert_eq!(out.response, vec![2]);
}

#[test]
fn short_frame_is_an_error() {
    // declared length larger than what arrived
    let mut t = fresh();
    let out = t.process_command(&vec![5, 0, 0, 10], false);
    assert_eq!(out.response, vec![2]);
}

#[test]
fn flush_is_idempotent() {
    let mut t = fresh();
    t.player.write_to_sid(0x18, 0x0f, 100);
    let out = t.process_command(&vec![0, 0, 0, 0], false);
    assert_eq!(out.response, vec![0]);
    assert_eq!(t.player.queue_len(), 0);
    assert!(t.player.aborted);
    let out = t.process_command(&vec![0, 0, 0, 0], false);
    assert_eq!(out.response, vec![0]);
    assert_eq!(t.player.queue_len(), 0);
}

#[test]
fn empty_write_is_ok_and_changes_nothing() {
    let mut t = fresh();
    let out = t.process_command(&vec![5, 0, 0, 0], false);
    assert_eq!(out.response, vec![0]);
    assert_eq!(t.player.queue_len(), 0);
    assert_eq!(t.player.cycles_in_buffer, 0);
    assert!(!t.player.queue_started);
}

#[test]
fn single_write_is_queued() {
    let mut t = fresh();
    // one write: 0x20 cycles, register 0x18, value 0x0f
    let out = t.process_command(&vec![5, 0, 0, 4, 0x00, 0x20, 0x18, 0x0f], false);
    assert_eq!(out.response, vec![0]);
    assert_eq!(t.player.queue_len(), 1);
    assert_eq!(t.player.cycles_in_buffer, 0x20);
    let batch = t.player.collect_writes_for_tick(5000);
    assert_eq!(batch.len(), 1);
    assert_eq!(batch[0].reg, 0x18);
    assert_eq!(batch[0].data, 0x0f);
    assert_eq!(batch[0].cycles, 0x20);
}

#[test]
fn write_then_read_requests_the_register() {
    let mut t = fresh();
    // a write and then a read of register 0x1b
    let out = t.process_command(
        &vec![6, 0, 0, 7, 0x00, 0x10, 0x00, 0x0f, 0x00, 0x20, 0x1b],
        false,
    );
    assert_eq!(out.response, vec![3]);
    assert!(out.await_read);
    assert_eq!(out.commands, vec![(PlayerCommand::Read, Some(0x1b))]);
    assert!(t.player.queue_started);
    // the write itself plus the cycle-burning write before the read
    assert_eq!(t.player.queue_len(), 2);
    let batch = t.player.collect_writes_for_tick(5000);
    assert_eq!(batch.len(), 2);
    assert_eq!(batch[0].reg, 0x00);
    assert_eq!(batch[0].data, 0x0f);
    assert_eq!(batch[0].cycles, 0x10);
    assert_eq!(batch[1].reg, 0x1e);
    assert_eq!(batch[1].data, 0x00);
    assert_eq!(batch[1].cycles, 0x20);
}

#[test]
fn flush_resets_pacing() {
    let mut t = fresh();
    fill_past_half(&mut t);
    let out = t.process_command(&vec![5, 0, 0, 4, 0x00, 0x20, 0x18, 0x0f], false);
    assert_eq!(out.response, vec![1]);
    let out = t.process_command(&vec![0, 0, 0, 0], false);
    assert_eq!(out.response, vec![0]);
    let out = t.process_command(&vec![5, 0, 0, 4, 0x00, 0x20, 0x18, 0x0f], false);
    assert_eq!(out.response, vec![0]);
}

#[test]
fn back_pressure_for_reads_and_delays() {
    let mut t = fresh();
    fill_past_half(&mut t);
    let out = t.process_command(&vec![4, 0, 0, 2, 0xff, 0xff], false);
    assert_eq!(out.response, vec![1]);
    let out = t.process_command(&vec![6, 0, 0, 3, 0x00, 0x20, 0x1b], false);
    assert_eq!(out.response, vec![1]);
    let out = t.process_command(&vec![3, 0, 0, 1, 0x0f], false);
    assert_eq!(out.response, vec![1]);
}

#[test]
fn busy_makes_no_queue_change() {
    let mut t = fresh();
    fill_past_half(&mut t);
    let len = t.player.queue_len();
    let cycles = t.player.cycles_in_buffer;
    let out = t.process_command(&vec![5, 0, 0, 4, 0x00, 0x20, 0x18, 0x0f], false);
    assert_eq!(out.response, vec![1]);
    assert_eq!(t.player.queue_len(), len);
    assert_eq!(t.player.cycles_in_buffer, cycles);
    // the full queue latched the drain
    assert!(t.player.queue_started);
}

#[test]
fn sid_count_change_clears_queue() {
    let mut t = fresh();
    for _ in 0..100 {
        let out = t.process_command(&vec![5, 0, 0, 4, 0x00, 0x20, 0x18, 0x0f], false);
        assert_eq!(out.response, vec![0]);
    }
    assert_eq!(t.player.queue_len(), 100);
    let out = t.process_command(&vec![1, 3, 0, 0], false);
    assert_eq!(out.response, vec![0]);
    assert!(out.restart_renderer);
    assert_eq!(out.commands, vec![(PlayerCommand::SetSidCount, Some(3))]);
    assert_eq!(t.player.queue_len(), 0);
    for _ in 0..10 {
        let out = t.process_command(&vec![5, 0, 0, 4, 0x00, 0x20, 0x18, 0x0f], false);
        assert_eq!(out.response, vec![0]);
    }
    assert_eq!(t.player.queue_len(), 10);
}

#[test]
fn sid_count_bounds() {
    let mut t = fresh();
    let out = t.process_command(&vec![1, 0, 0, 0], false);
    assert_eq!(out.response, vec![2]);
    let out = t.process_command(&vec![1, 9, 0, 0], false);
    assert_eq!(out.response, vec![2]);
    for n in 1..=8u8 {
        let out = t.process_command(&vec![1, n, 0, 0], false);
        assert_eq!(out.response, vec![0]);
        assert_eq!(out.commands, vec![(PlayerCommand::SetSidCount, Some(n as i32))]);
    }
}

#[test]
fn one_byte_setters_validate_length() {
    let mut t = fresh();
    for cmd in [8u8, 9, 12, 14] {
        let out = t.process_command(&vec![cmd, 0, 0, 0], false);
        assert_eq!(out.response, vec![2], "command {cmd} with length 0");
        let out = t.process_command(&vec![cmd, 0, 0, 2, 1, 1], false);
        assert_eq!(out.response, vec![2], "command {cmd} with length 2");
        let out = t.process_command(&vec![cmd, 0, 0, 1, 1], false);
        assert_eq!(out.response, vec![0], "command {cmd} with length 1");
    }
}

#[test]
fn setters_forward_the_right_commands() {
    let mut t = fresh();
    let out = t.process_command(&vec![9, 0, 0, 1, 1], false);
    assert_eq!(out.commands, vec![(PlayerCommand::SetClock, Some(1))]);
    let out = t.process_command(&vec![8, 0, 0, 1, 0], false);
    assert_eq!(out.commands, vec![(PlayerCommand::SetSamplingMethod, Some(0))]);
    let out = t.process_command(&vec![14, 2, 0, 1, 1], false);
    assert_eq!(out.commands, vec![(PlayerCommand::SetModel, Some((2 << 8) | 1))]);
    let out = t.process_command(&vec![12, 1, 0, 1, 0x9c], false);
    assert_eq!(out.commands, vec![(PlayerCommand::SetPosition, Some((1 << 8) | 0x9c))]);
}

#[test]
fn delay_validates_and_burns_cycles() {
    let mut t = fresh();
    let out = t.process_command(&vec![4, 0, 0, 1, 0xff], false);
    assert_eq!(out.response, vec![2]);
    let out = t.process_command(&vec![4, 2, 0, 2, 0x01, 0x00], false);
    assert_eq!(out.response, vec![0]);
    assert_eq!(t.player.cycles_in_buffer, 0x100);
    let batch = t.player.collect_writes_for_tick(5000);
    assert_eq!(batch.len(), 1);
    assert_eq!(batch[0].reg, 0x1e + 2 * 0x20);
    assert_eq!(batch[0].data, 0);
    assert_eq!(batch[0].cycles, 0x100);
}

#[test]
fn read_length_validation() {
    let mut t = fresh();
    let out = t.process_command(&vec![6, 0, 0, 2, 0x00, 0x20], false);
    assert_eq!(out.response, vec![2]);
    let out = t.process_command(&vec![6, 0, 0, 4, 0x00, 0x20, 0x1b, 0x00], false);
    assert_eq!(out.response, vec![2]);
}

#[test]
fn write_length_must_be_whole_writes() {
    let mut t = fresh();
    let out = t.process_command(&vec![5, 0, 0, 3, 0x00, 0x20, 0x18], false);
    assert_eq!(out.response, vec![2]);
}

#[test]
fn reset_validates_length_and_forwards() {
    let mut t = fresh();
    let out = t.process_command(&vec![3, 0, 0, 0], false);
    assert_eq!(out.response, vec![2]);
    let out = t.process_command(&vec![3, 0, 0, 1, 0x0f], false);
    assert_eq!(out.response, vec![0]);
    assert_eq!(out.commands, vec![(PlayerCommand::Reset, None)]);
}

#[test]
fn audio_error_closes_the_connection() {
    let mut t = fresh();
    for cmd in [4u8, 5, 6] {
        let out = t.process_command(&vec![cmd, 0, 0, 0], true);
        assert!(out.close, "command {cmd} must close on audio error");
        assert!(out.response.is_empty());
    }
}

#[test]
fn ignored_commands_are_acknowledged() {
    let mut t = fresh();
    for cmd in [2u8, 13, 15, 16, 17, 18] {
        let out = t.process_command(&vec![cmd, 0, 0, 0], false);
        assert_eq!(out.response, vec![0], "command {cmd}");
        assert!(out.commands.is_empty());
    }
}

#[test]
fn queue_started_latches_until_flush() {
    let mut t = fresh();
    t.player.start_draining();
    assert!(t.player.queue_started);
    let out = t.process_command(&vec![5, 0, 0, 4, 0x00, 0x20, 0x18, 0x0f], false);
    assert_eq!(out.response, vec![0]);
    assert!(t.player.queue_started);
    let out = t.process_command(&vec![7, 0, 0, 0], false);
    assert_eq!(out.response, vec![4, 4]);
    assert!(t.player.queue_started);
    let out = t.process_command(&vec![0, 0, 0, 0], false);
    assert_eq!(out.response, vec![0]);
    assert!(!t.player.queue_started);
}
