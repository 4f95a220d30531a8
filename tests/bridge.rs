use winaudioremote::{
    decode_device, decode_wide, encode_wide, AudioDevice, BridgeError, Command, CommandAction,
    CommandEvent, CommandSession, ListAction, ListEvent, ListSession, RawDevice,
};

fn wide(s: &str) -> Vec<u16> {
    s.encode_utf16().collect()
}

fn raw(id: &str, name: &str, is_default: bool) -> RawDevice {
    RawDevice { id: wide(id), name: wide(name), is_default }
}

/// A stand-in for the native library, counting what the bridge asks of it.
struct FakeNative {
    present: bool,
    symbols: bool,
    enumerate_ok: bool,
    devices: Vec<Option<RawDevice>>,
    volume: u64,
    loads: u32,
    enumerations: u32,
    reads: u32,
    releases: u32,
    unloads: u32,
}

impl FakeNative {
    fn new(devices: Vec<Option<RawDevice>>) -> FakeNative {
        FakeNative {
            present: true,
            symbols: true,
            enumerate_ok: true,
            devices,
            volume: 0,
            loads: 0,
            enumerations: 0,
            reads: 0,
            releases: 0,
            unloads: 0,
        }
    }

    fn list(&mut self) -> Result<Vec<AudioDevice>, BridgeError> {
        let (mut s, mut a) = ListSession::start();
        loop {
            let e = match a {
                ListAction::Load => {
                    self.loads += 1;
                    if self.present { ListEvent::Loaded } else { ListEvent::LoadFailed }
                }
                ListAction::Resolve => {
                    if self.symbols { ListEvent::Resolved } else { ListEvent::SymbolMissing }
                }
                ListAction::Enumerate => {
                    self.enumerations += 1;
                    if self.enumerate_ok {
                        ListEvent::Enumerated(self.devices.len() as u64)
                    } else {
                        ListEvent::EnumerateFailed
                    }
                }
                ListAction::Read(i) => {
                    self.reads += 1;
                    ListEvent::Element(self.devices[i as usize].clone())
                }
                ListAction::Release => {
                    self.releases += 1;
                    ListEvent::Released
                }
                ListAction::Unload => {
                    self.unloads += 1;
                    ListEvent::Unloaded
                }
                ListAction::Finish(r) => return r,
            };
            assert!(s.accepts(&e));
            a = s.step(e);
        }
    }

    fn run(&mut self, command: Command) -> Result<Option<u64>, BridgeError> {
        let (mut s, mut a) = CommandSession::start(command);
        loop {
            let e = match a {
                CommandAction::Load => {
                    self.loads += 1;
                    if self.present { CommandEvent::Loaded } else { CommandEvent::LoadFailed }
                }
                CommandAction::Resolve => {
                    if self.symbols { CommandEvent::Resolved } else { CommandEvent::SymbolMissing }
                }
                CommandAction::Invoke => match &s.command {
                    Command::GetVolume => CommandEvent::Returned(Some(self.volume)),
                    Command::SetVolume(v) => {
                        self.volume = *v;
                        CommandEvent::Returned(None)
                    }
                    Command::SetDefaultDevice(w) => {
                        let id = &w[..w.len() - 1];
                        for d in self.devices.iter_mut().flatten() {
                            d.is_default = d.id.as_slice() == id;
                        }
                        CommandEvent::Returned(None)
                    }
                },
                CommandAction::Unload => {
                    self.unloads += 1;
                    CommandEvent::Unloaded
                }
                CommandAction::Finish(r) => return r,
            };
            assert!(s.accepts(&e));
            a = s.step(e);
        }
    }
}

fn speakers() -> Vec<Option<RawDevice>> {
    vec![
        Some(raw("{0.0.0}.{a1}", "Speakers", true)),
        Some(raw("{0.0.0}.{b2}", "Headphones", false)),
        Some(raw("{0.0.0}.{c3}", "Monitor é", false)),
    ]
}

#[test]
fn lists_devices_in_native_order() {
    let mut native = FakeNative::new(speakers());
    let devices = native.list().unwrap();
    assert_eq!(devices.len(), 3);
    assert_eq!(devices[0].id, "{0.0.0}.{a1}");
    assert_eq!(devices[0].name, "Speakers");
    assert!(devices[0].is_default);
    assert_eq!(devices[1].name, "Headphones");
    assert!(!devices[1].is_default);
    assert_eq!(devices[2].name, "Monitor é");
    assert_eq!(native.releases, 1);
    assert_eq!(native.unloads, 1);
}

#[test]
fn listing_twice_gives_identical_devices() {
    let mut native = FakeNative::new(speakers());
    let a = native.list().unwrap();
    let b = native.list().unwrap();
    assert_eq!(a.len(), b.len());
    for (x, y) in a.iter().zip(b.iter()) {
        assert_eq!(x.id, y.id);
        assert_eq!(x.name, y.name);
        assert_eq!(x.is_default, y.is_default);
    }
    assert_eq!(native.releases, 2);
}

#[test]
fn empty_device_set_lists_empty() {
    let mut native = FakeNative::new(vec![]);
    let devices = native.list().unwrap();
    assert!(devices.is_empty());
    assert_eq!(native.reads, 0);
    assert_eq!(native.releases, 1);
    assert_eq!(native.unloads, 1);
}

#[test]
fn unreadable_element_fails_and_releases_once() {
    let mut devices = speakers();
    devices[1] = None;
    let mut native = FakeNative::new(devices);
    assert_eq!(native.list().unwrap_err(), BridgeError::CallError);
    assert_eq!(native.reads, 2);
    assert_eq!(native.releases, 1);
    assert_eq!(native.unloads, 1);
}

#[test]
fn missing_library_fails_with_load_error() {
    let mut native = FakeNative::new(speakers());
    native.present = false;
    assert_eq!(native.list().unwrap_err(), BridgeError::LoadError);
    assert_eq!(native.enumerations, 0);
    assert_eq!(native.releases, 0);
    assert_eq!(native.unloads, 0);
    assert_eq!(native.run(Command::SetVolume(7)).unwrap_err(), BridgeError::LoadError);
    assert_eq!(native.volume, 0);
    assert_eq!(native.unloads, 0);
}

#[test]
fn missing_symbol_fails_and_unloads() {
    let mut native = FakeNative::new(speakers());
    native.symbols = false;
    assert_eq!(native.list().unwrap_err(), BridgeError::SymbolNotFound);
    assert_eq!(native.enumerations, 0);
    assert_eq!(native.releases, 0);
    assert_eq!(native.unloads, 1);
    assert_eq!(native.run(Command::GetVolume).unwrap_err(), BridgeError::SymbolNotFound);
    assert_eq!(native.unloads, 2);
}

#[test]
fn failed_enumeration_gives_call_error_without_release() {
    let mut native = FakeNative::new(speakers());
    native.enumerate_ok = false;
    assert_eq!(native.list().unwrap_err(), BridgeError::CallError);
    assert_eq!(native.releases, 0);
    assert_eq!(native.unloads, 1);
}

#[test]
fn second_default_is_reported_not_resolved() {
    let mut native = FakeNative::new(vec![
        Some(raw("x", "X", true)),
        Some(raw("y", "Y", true)),
    ]);
    let devices = native.list().unwrap();
    assert_eq!(devices.iter().filter(|d| d.is_default).count(), 2);
}

#[test]
fn volume_set_then_read_back() {
    let mut native = FakeNative::new(vec![]);
    let volume = 41;
    assert_eq!(native.run(Command::SetVolume(volume)), Ok(None));
    assert_eq!(native.run(Command::GetVolume), Ok(Some(41)));
    assert_eq!(native.unloads, 2);
}

#[test]
fn set_default_device_moves_the_default() {
    let mut native = FakeNative::new(speakers());
    let devices = native.list().unwrap();
    let target = devices[1].id.clone();
    let command = Command::set_default_device(&target).unwrap();
    assert_eq!(native.run(command), Ok(None));
    let after = native.list().unwrap();
    let defaults: Vec<&AudioDevice> = after.iter().filter(|d| d.is_default).collect();
    assert_eq!(defaults.len(), 1);
    assert_eq!(defaults[0].id, target);
}

#[test]
fn set_default_device_refuses_interior_nul() {
    assert!(matches!(Command::set_default_device("a\0b"), Err(BridgeError::CallError)));
}

#[test]
fn set_default_device_encodes_id() {
    match Command::set_default_device("ab").unwrap() {
        Command::SetDefaultDevice(w) => assert_eq!(w, vec![0x61, 0x62, 0]),
        _ => panic!("wrong command"),
    }
}

#[test]
fn encode_wide_appends_terminator() {
    assert_eq!(encode_wide("é𝄞").unwrap(), vec![0xE9, 0xD834, 0xDD1E, 0]);
    assert_eq!(encode_wide("").unwrap(), vec![0]);
    assert_eq!(encode_wide("x\0"), None);
}

#[test]
fn decode_wide_is_lossy() {
    assert_eq!(decode_wide(&vec![0x68, 0x69]), "hi");
    assert_eq!(decode_wide(&vec![0xD834, 0xDD1E]), "𝄞");
    assert_eq!(decode_wide(&vec![0x61, 0xD800]), "a\u{FFFD}");
    assert_eq!(decode_wide(&vec![]), "");
}

#[test]
fn decode_device_copies_fields() {
    let d = decode_device(&raw("id1", "Name", true));
    assert_eq!(d.id, "id1");
    assert_eq!(d.name, "Name");
    assert!(d.is_default);
}

#[test]
fn unexpected_events_are_refused() {
    let (s, _) = ListSession::start();
    assert!(!s.accepts(&ListEvent::Released));
    assert!(s.accepts(&ListEvent::Loaded));
    let (c, _) = CommandSession::start(Command::SetVolume(3));
    assert!(!c.accepts(&CommandEvent::Unloaded));
}
