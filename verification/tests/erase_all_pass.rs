use flash_algo::device::target_device;
use flash_algo::erase::EraseAllRun;

#[test]
fn full_pass_issues_512_ascending_commands() {
    // device_size 1_048_576, page_size 2048: exactly 512 commands at
    // 0, 2048, 4096, ..., 1_046_528.
    let dev = target_device();
    let mut run = EraseAllRun::new(&dev);
    let mut commands: Vec<u32> = Vec::new();
    while let Some(addr) = run.next_address() {
        commands.push(addr);
        run.absorb(0);
    }
    assert_eq!(commands.len(), 512);
    assert_eq!(commands[0], 0);
    assert_eq!(commands[1], 2048);
    assert_eq!(commands[2], 4096);
    assert_eq!(commands[511], 1_046_528);
    for (i, addr) in commands.iter().enumerate() {
        assert_eq!(*addr, i as u32 * 2048);
    }
    assert_eq!(run.outcome(), Some(Ok(())));
}

#[test]
fn pass_stops_at_first_failure_and_keeps_its_code() {
    // The command at address 4096 returns 0x42: the pass ends with an
    // error carrying exactly 0x42 and never commands 6144 or beyond.
    let dev = target_device();
    let mut run = EraseAllRun::new(&dev);
    let mut commands: Vec<u32> = Vec::new();
    while let Some(addr) = run.next_address() {
        commands.push(addr);
        run.absorb(if addr == 4096 { 0x42 } else { 0 });
    }
    assert_eq!(commands, vec![0, 2048, 4096]);
    let err = run.outcome().unwrap().unwrap_err();
    assert_eq!(err.code(), 0x42);
    assert_eq!(run.next_address(), None);
}

#[test]
fn failure_on_first_command_erases_nothing_more() {
    let dev = target_device();
    let mut run = EraseAllRun::new(&dev);
    assert_eq!(run.next_address(), Some(0));
    run.absorb(7);
    assert_eq!(run.next_address(), None);
    assert_eq!(run.outcome().unwrap().unwrap_err().code(), 7);
}

#[test]
fn outcome_is_pending_while_commands_remain() {
    let dev = target_device();
    let mut run = EraseAllRun::new(&dev);
    assert_eq!(run.outcome(), None);
    let addr = run.next_address().unwrap();
    assert_eq!(addr, 0);
    run.absorb(0);
    assert_eq!(run.outcome(), None);
}
