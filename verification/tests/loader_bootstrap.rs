use firebolt_gateway::device::RippleError;
use firebolt_gateway::extn_id::{ExtnId, ExtnType};
use firebolt_gateway::loader::{
    ChannelInput, ChannelSymbol, ExtnChannel, ExtnState, ExtnSymbolInput, LoadExtensionsStep,
    LoadedLibraryInput,
};
use firebolt_gateway::openrpc::MethodSchema;
use jsonrpsee::{Methods, RpcModule};

fn channel(id: &str) -> ChannelInput {
    ChannelInput {
        symbol: ChannelSymbol { id: id.to_owned() },
        builder_present: true,
        channel: Some(ExtnChannel { id: id.to_owned() }),
    }
}

fn methods_with(name: &'static str) -> Methods {
    let mut module = RpcModule::new(());
    module.register_method(name, |_, _, _| "ok").expect("register");
    Methods::from(module)
}

#[test]
fn all_channels_load_and_partition() {
    let step = LoadExtensionsStep;
    let mut state = ExtnState::new();
    let mut open_rpcs = Vec::new();
    let libraries = vec![LoadedLibraryInput {
        path: "libthunder.so".to_owned(),
        channels: vec![
            channel("ripple:channel:device:thunder"),
            channel("ripple:channel:badger:bridge"),
        ],
        extensions: Vec::new(),
    }];
    let r = step.setup(&mut state, &mut open_rpcs, libraries);
    assert!(r.is_ok());
    assert_eq!(state.device_channels.len() + state.deferred_channels.len(), 2);
    assert_eq!(state.device_channels.len(), 1);
    assert_eq!(state.deferred_channels.len(), 1);
    assert_eq!(state.device_channels[0].extn_id.extn_type, ExtnType::Channel);
    assert_eq!(state.device_channels[0].extn_id.class, "device");
}

#[test]
fn one_bad_channel_aborts_bootstrap_with_nothing_loaded() {
    let step = LoadExtensionsStep;
    let mut state = ExtnState::new();
    let mut open_rpcs = Vec::new();
    let libraries = vec![LoadedLibraryInput {
        path: "libbad.so".to_owned(),
        channels: vec![channel("ripple:channel:device:thunder"), channel("not-an-extn-id")],
        extensions: Vec::new(),
    }];
    let r = step.setup(&mut state, &mut open_rpcs, libraries);
    assert_eq!(r, Err(RippleError::BootstrapError));
    assert!(state.device_channels.is_empty());
    assert!(state.deferred_channels.is_empty());
}

#[test]
fn missing_builder_aborts_bootstrap() {
    let step = LoadExtensionsStep;
    let mut state = ExtnState::new();
    let mut open_rpcs = Vec::new();
    let libraries = vec![LoadedLibraryInput {
        path: "libnobuilder.so".to_owned(),
        channels: vec![ChannelInput {
            symbol: ChannelSymbol { id: "ripple:channel:device:thunder".to_owned() },
            builder_present: false,
            channel: None,
        }],
        extensions: Vec::new(),
    }];
    assert_eq!(
        step.setup(&mut state, &mut open_rpcs, libraries),
        Err(RippleError::BootstrapError)
    );
}

#[test]
fn extensions_contribute_methods_and_openrpc() {
    let step = LoadExtensionsStep;
    let mut state = ExtnState::new();
    let mut open_rpcs = Vec::new();
    let libraries = vec![LoadedLibraryInput {
        path: "libextn.so".to_owned(),
        channels: Vec::new(),
        extensions: vec![
            ExtnSymbolInput {
                id: "ripple:extn:jsonrpsee:account".to_owned(),
                uses: vec!["account:session".to_owned()],
                has_methods_builder: true,
                methods: methods_with("account.session"),
                open_rpc: Some(vec![MethodSchema {
                    name: "account.session".to_owned(),
                    params_schema: None,
                    caps: vec!["account:session".to_owned()],
                }]),
            },
            ExtnSymbolInput {
                id: "this id does not parse".to_owned(),
                uses: Vec::new(),
                has_methods_builder: true,
                methods: methods_with("skipped.method"),
                open_rpc: None,
            },
        ],
    }];
    let r = step.setup(&mut state, &mut open_rpcs, libraries);
    assert!(r.is_ok());
    assert!(state.has_method("account.session"));
    assert!(!state.has_method("skipped.method"));
    assert_eq!(open_rpcs.len(), 1);
    assert_eq!(open_rpcs[0][0].name, "account.session");
}

#[test]
fn step_name_is_stable() {
    assert_eq!(LoadExtensionsStep.get_name(), "LoadExtensionsStep");
}

#[test]
fn extn_id_parses_and_renders() {
    let id = ExtnId::try_from("ripple:channel:device:thunder").expect("parses");
    assert_eq!(id.extn_type, ExtnType::Channel);
    assert_eq!(id.class, "device");
    assert_eq!(id.service, "thunder");
    assert!(id.is_device_channel());
    assert_eq!(id.to_string(), "ripple:channel:device:thunder");

    let extn = ExtnId::try_from("ripple:extn:jsonrpsee:account").expect("parses");
    assert!(!extn.is_device_channel());

    assert_eq!(ExtnId::try_from("ripple:channel:device"), Err(RippleError::ParseError));
    assert_eq!(ExtnId::try_from("other:channel:device:x"), Err(RippleError::ParseError));
    assert_eq!(ExtnId::try_from("ripple:oddity:device:x"), Err(RippleError::ParseError));
    assert_eq!(ExtnId::try_from("ripple:channel::x"), Err(RippleError::ParseError));
}

#[test]
fn method_table_merge_keeps_first_writer_on_collision() {
    let mut state = ExtnState::new();
    state.extend_methods(methods_with("a.b"));
    state.extend_methods(methods_with("c.d"));
    // A second table that collides on "a.b" is left out entirely.
    let mut colliding = RpcModule::new(());
    colliding.register_method("a.b", |_, _, _| "dup").expect("register");
    colliding.register_method("e.f", |_, _, _| "new").expect("register");
    state.extend_methods(Methods::from(colliding));
    assert!(state.has_method("a.b"));
    assert!(state.has_method("c.d"));
    assert!(!state.has_method("e.f"));
}
