//! The extension loader: given the loaded libraries' declared symbols and
//! the outcomes of their builder entry points, it partitions channels into
//! device and deferred registries, merges the contributed method tables,
//! and collects OpenRPC contributions. Channels are a closed, trusted set:
//! any channel that fails aborts bootstrap with nothing loaded.

use vstd::prelude::*;
use jsonrpsee::Methods;
use crate::device::RippleError;
use crate::extn_id::{spec_extn_id_ok, spec_extn_type_of, split_colon, ExtnId, ExtnType};
use crate::openrpc::MethodSchema;
use crate::registry::{methods_merge, methods_names, methods_new};

verus! {

/// A channel symbol declared by an extension manifest.
#[derive(Debug)]
pub struct ChannelSymbol {
    pub id: String,
}

impl Clone for ChannelSymbol {
    fn clone(&self) -> (res: Self)
        ensures
            res == *self,
    {
        ChannelSymbol { id: self.id.clone() }
    }
}

/// A device-control channel as the builder yielded it.
#[derive(Debug)]
pub struct ExtnChannel {
    pub id: String,
}

/// One declared channel with the outcome of resolving and invoking its
/// builder: whether a `channel_builder` entry point existed, and the
/// channel it produced when invoked.
#[derive(Debug)]
pub struct ChannelInput {
    pub symbol: ChannelSymbol,
    pub builder_present: bool,
    pub channel: Option<ExtnChannel>,
}

/// One declared extension with the outcome of resolving its
/// `jsonrpsee_methods` entry point: the method table and OpenRPC
/// contribution it produced.
#[derive(Debug)]
pub struct ExtnSymbolInput {
    pub id: String,
    pub uses: Vec<String>,
    pub has_methods_builder: bool,
    pub methods: Methods,
    pub open_rpc: Option<Vec<MethodSchema>>,
}

/// One loaded library: its declared channels and extensions.
#[derive(Debug)]
pub struct LoadedLibraryInput {
    pub path: String,
    pub channels: Vec<ChannelInput>,
    pub extensions: Vec<ExtnSymbolInput>,
}

/// A channel ready for bring-up, with its parsed id and declaring symbol.
#[derive(Debug)]
pub struct PreLoadedExtnChannel {
    pub channel: ExtnChannel,
    pub extn_id: ExtnId,
    pub symbol: ChannelSymbol,
}

/// The extension registries filled at boot.
#[derive(Debug)]
pub struct ExtnState {
    pub device_channels: Vec<PreLoadedExtnChannel>,
    pub deferred_channels: Vec<PreLoadedExtnChannel>,
    pub methods: Methods,
}

impl ExtnState {
    /// Empty registries and an empty method table.
    pub fn new() -> (r: Self)
        ensures
            r.device_channels@.len() == 0,
            r.deferred_channels@.len() == 0,
            methods_names(r.methods) == Set::<Seq<char>>::empty(),
    {
        ExtnState {
            device_channels: Vec::new(),
            deferred_channels: Vec::new(),
            methods: methods_new(),
        }
    }

    /// Whether the registry holds the method.
    pub fn has_method(&self, name: &str) -> (r: bool)
        ensures
            r == methods_names(self.methods).contains(name@),
    {
        crate::registry::methods_contains(&self.methods, name)
    }

    /// Merges a contributed method table into the registry; on a name
    /// collision nothing moves.
    pub fn extend_methods(&mut self, other: Methods)
        ensures
            final(self).device_channels == old(self).device_channels,
            final(self).deferred_channels == old(self).deferred_channels,
            methods_names(old(self).methods).disjoint(methods_names(other)) ==> methods_names(
                final(self).methods,
            ) == methods_names(old(self).methods).union(methods_names(other)),
            !methods_names(old(self).methods).disjoint(methods_names(other)) ==> methods_names(
                final(self).methods,
            ) == methods_names(old(self).methods),
    {
        let _ = methods_merge(&mut self.methods, other);
    }
}

/// Whether one declared channel parses and builds.
pub open spec fn channel_ok(c: ChannelInput) -> bool {
    spec_extn_id_ok(c.symbol.id@) && c.builder_present && c.channel is Some
}

/// Whether every declared channel of every library parses and builds.
pub open spec fn channels_all_ok(libs: Seq<LoadedLibraryInput>) -> bool {
    forall|i: int, j: int|
        0 <= i < libs.len() && 0 <= j < libs[i].channels@.len() ==> channel_ok(
            #[trigger] libs[i].channels@[j],
        )
}

/// Whether a declared channel's id names the privileged device channel.
pub open spec fn input_is_device(c: ChannelInput) -> bool {
    spec_extn_type_of(c.symbol.id@) == ExtnType::Channel && split_colon(c.symbol.id@)[2]
        == "device"@
}

/// How a committed entry corresponds to the declared channel it came from:
/// the built channel, the declaring symbol, and the parsed id.
pub open spec fn channel_entry_matches(c: ChannelInput, e: PreLoadedExtnChannel) -> bool {
    &&& c.channel == Some(e.channel)
    &&& e.symbol == c.symbol
    &&& e.extn_id.extn_type == spec_extn_type_of(c.symbol.id@)
    &&& e.extn_id.class@ == split_colon(c.symbol.id@)[2]
    &&& e.extn_id.service@ == split_colon(c.symbol.id@)[3]
}

/// Every channel the libraries declare, in declaration order.
pub open spec fn all_channels(libs: Seq<LoadedLibraryInput>) -> Seq<ChannelInput>
    decreases libs.len(),
{
    if libs.len() == 0 {
        Seq::<ChannelInput>::empty()
    } else {
        all_channels(libs.drop_last()) + libs.last().channels@
    }
}

/// The declared channels whose id names the device channel, in order.
pub open spec fn device_inputs(cs: Seq<ChannelInput>) -> Seq<ChannelInput>
    decreases cs.len(),
{
    if cs.len() == 0 {
        Seq::<ChannelInput>::empty()
    } else {
        let rest = device_inputs(cs.drop_last());
        if input_is_device(cs.last()) {
            rest.push(cs.last())
        } else {
            rest
        }
    }
}

/// The other declared channels, in order.
pub open spec fn deferred_inputs(cs: Seq<ChannelInput>) -> Seq<ChannelInput>
    decreases cs.len(),
{
    if cs.len() == 0 {
        Seq::<ChannelInput>::empty()
    } else {
        let rest = deferred_inputs(cs.drop_last());
        if input_is_device(cs.last()) {
            rest
        } else {
            rest.push(cs.last())
        }
    }
}

/// Whether an extension contributes at all: its id parses and its library
/// exposes a methods builder.
pub open spec fn ext_qualifies(e: ExtnSymbolInput) -> bool {
    spec_extn_id_ok(e.id@) && e.has_methods_builder
}

/// The OpenRPC contributions of the qualifying extensions, in order.
pub open spec fn ext_contribs(exts: Seq<ExtnSymbolInput>) -> Seq<Vec<MethodSchema>>
    decreases exts.len(),
{
    if exts.len() == 0 {
        Seq::<Vec<MethodSchema>>::empty()
    } else {
        let rest = ext_contribs(exts.drop_last());
        if ext_qualifies(exts.last()) && exts.last().open_rpc is Some {
            rest.push(exts.last().open_rpc->0)
        } else {
            rest
        }
    }
}

/// The OpenRPC contributions of every library, in order.
pub open spec fn lib_contribs(libs: Seq<LoadedLibraryInput>) -> Seq<Vec<MethodSchema>>
    decreases libs.len(),
{
    if libs.len() == 0 {
        Seq::<Vec<MethodSchema>>::empty()
    } else {
        lib_contribs(libs.drop_last()) + ext_contribs(libs.last().extensions@)
    }
}

/// How many channels the libraries declare.
pub open spec fn total_channels(libs: Seq<LoadedLibraryInput>) -> int
    decreases libs.len(),
{
    if libs.len() == 0 {
        0
    } else {
        total_channels(libs.drop_last()) + libs.last().channels@.len()
    }
}

/// The method-name set after feeding one extension's table into an
/// accumulator: unioned when the extension qualifies and its names are
/// disjoint from the accumulator, else unchanged.
pub open spec fn ext_step(acc: Set<Seq<char>>, e: ExtnSymbolInput) -> Set<Seq<char>> {
    if spec_extn_id_ok(e.id@) && e.has_methods_builder && acc.disjoint(methods_names(e.methods)) {
        acc.union(methods_names(e.methods))
    } else {
        acc
    }
}

/// The accumulator after a list of extensions.
pub open spec fn acc_exts(acc: Set<Seq<char>>, exts: Seq<ExtnSymbolInput>) -> Set<Seq<char>>
    decreases exts.len(),
{
    if exts.len() == 0 {
        acc
    } else {
        ext_step(acc_exts(acc, exts.drop_last()), exts.last())
    }
}

/// The accumulator after every library's extensions.
pub open spec fn acc_libs(acc: Set<Seq<char>>, libs: Seq<LoadedLibraryInput>) -> Set<Seq<char>>
    decreases libs.len(),
{
    if libs.len() == 0 {
        acc
    } else {
        acc_exts(acc_libs(acc, libs.drop_last()), libs.last().extensions@)
    }
}

/// The boot step that loads the extensions into the extension state.
pub struct LoadExtensionsStep;

impl LoadExtensionsStep {
    /// The step's name, for boot logs.
    pub fn get_name(&self) -> (r: String)
        ensures
            r@ == "LoadExtensionsStep"@,
    {
        let mut m = String::new();
        m.append("LoadExtensionsStep");
        m
    }

    /// Loads the libraries' contributions into the extension state. When
    /// every channel parses and builds, the device and deferred registries
    /// grow by exactly the declared device and non-device channels, in
    /// declaration order, each entry carrying its built channel, parsed id
    /// and declaring symbol; the contributed method tables are merged in
    /// declaration order (a collision leaves a table out) and every
    /// qualifying extension's OpenRPC contribution is handed on, in order.
    /// Any failing channel aborts with `BootstrapError` and nothing
    /// touched; a failing extension is skipped and contributes nothing.
    #[verifier::loop_isolation(false)]
    #[verifier::rlimit(80)]
    pub fn setup(
        &self,
        state: &mut ExtnState,
        open_rpcs: &mut Vec<Vec<MethodSchema>>,
        libraries: Vec<LoadedLibraryInput>,
    ) -> (r: Result<(), RippleError>)
        ensures
            r is Ok <==> channels_all_ok(libraries@),
            r matches Err(e) ==> e == RippleError::BootstrapError && *final(state) == *old(state)
                && final(open_rpcs)@ == old(open_rpcs)@,
            r is Ok ==> final(state).device_channels@.len() + final(state).deferred_channels@.len() == old(state).device_channels@.len() + old(state).deferred_channels@.len() + total_channels(libraries@),
            r is Ok ==> ({
                let dev = device_inputs(all_channels(libraries@));
                final(state).device_channels@.len() == old(state).device_channels@.len()
                    + dev.len() && forall|k: int|
                    0 <= k < dev.len() ==> channel_entry_matches(
                        #[trigger] dev[k],
                        final(state).device_channels@[old(state).device_channels@.len() + k],
                    )
            }),
            r is Ok ==> ({
                let def = deferred_inputs(all_channels(libraries@));
                final(state).deferred_channels@.len() == old(state).deferred_channels@.len()
                    + def.len() && forall|k: int|
                    0 <= k < def.len() ==> channel_entry_matches(
                        #[trigger] def[k],
                        final(state).deferred_channels@[old(state).deferred_channels@.len() + k],
                    )
            }),
            r is Ok ==> final(open_rpcs)@ == old(open_rpcs)@ + lib_contribs(libraries@),
            r is Ok ==> forall|i: int|
                0 <= i < old(state).device_channels@.len() ==> (
                #[trigger] final(state).device_channels@[i]) == old(state).device_channels@[i],
            r is Ok ==> forall|i: int|
                0 <= i < old(state).deferred_channels@.len() ==> (
                #[trigger] final(state).deferred_channels@[i]) == old(state).deferred_channels@[i],
            r is Ok ==> {
                let acc = acc_libs(Set::<Seq<char>>::empty(), libraries@);
                (methods_names(old(state).methods).disjoint(acc) ==> methods_names(
                    final(state).methods,
                ) == methods_names(old(state).methods).union(acc)) && (!methods_names(
                    old(state).methods,
                ).disjoint(acc) ==> methods_names(final(state).methods) == methods_names(
                    old(state).methods,
                ))
            },
    {
        let mut device_channels: Vec<PreLoadedExtnChannel> = Vec::new();
        let mut deferred_channels: Vec<PreLoadedExtnChannel> = Vec::new();
        let mut jsonrpsee_extns: Methods = methods_new();
        let mut collected: Vec<Vec<MethodSchema>> = Vec::new();
        let ghost libs = libraries@;
        let mut libraries = libraries;
        let nl = libraries.len();
        let mut li: usize = 0;
        while li < nl
            invariant
                nl == libs.len(),
                libraries@ == libs.skip(li as int),
                li <= nl,
                channels_all_ok(libs.take(li as int)),
                device_channels@.len() + deferred_channels@.len() == total_channels(
                    libs.take(li as int),
                ),
                device_channels@.len() == device_inputs(all_channels(libs.take(li as int))).len(),
                forall|k: int|
                    0 <= k < device_channels@.len() ==> channel_entry_matches(
                        #[trigger] device_inputs(all_channels(libs.take(li as int)))[k],
                        device_channels@[k],
                    ),
                deferred_channels@.len() == deferred_inputs(
                    all_channels(libs.take(li as int)),
                ).len(),
                forall|k: int|
                    0 <= k < deferred_channels@.len() ==> channel_entry_matches(
                        #[trigger] deferred_inputs(all_channels(libs.take(li as int)))[k],
                        deferred_channels@[k],
                    ),
                collected@ == lib_contribs(libs.take(li as int)),
                methods_names(jsonrpsee_extns) == acc_libs(
                    Set::<Seq<char>>::empty(),
                    libs.take(li as int),
                ),
            decreases nl - li,
        {
            let lib = libraries.remove(0);
            proof {
                assert(lib == libs[li as int]);
                assert(libraries@ =~= libs.skip(li + 1 as int));
                assert(libs.take(li + 1 as int).drop_last() =~= libs.take(li as int));
                assert(libs.take(li + 1 as int).last() == libs[li as int]);
            }
            let ghost chans = lib.channels@;
            let ghost done = all_channels(libs.take(li as int));
            let mut channels = lib.channels;
            let nc = channels.len();
            let mut ci: usize = 0;
            while ci < nc
                invariant
                    nc == chans.len(),
                    channels@ == chans.skip(ci as int),
                    ci <= nc,
                    forall|j: int| 0 <= j < ci ==> channel_ok(#[trigger] chans[j]),
                    device_channels@.len() + deferred_channels@.len() == total_channels(
                        libs.take(li as int),
                    ) + ci,
                    device_channels@.len() == device_inputs(done + chans.take(ci as int)).len(),
                    forall|k: int|
                        0 <= k < device_channels@.len() ==> channel_entry_matches(
                            #[trigger] device_inputs(done + chans.take(ci as int))[k],
                            device_channels@[k],
                        ),
                    deferred_channels@.len() == deferred_inputs(
                        done + chans.take(ci as int),
                    ).len(),
                    forall|k: int|
                        0 <= k < deferred_channels@.len() ==> channel_entry_matches(
                            #[trigger] deferred_inputs(done + chans.take(ci as int))[k],
                            deferred_channels@[k],
                        ),
                decreases nc - ci,
            {
                let channel = channels.remove(0);
                let ghost flat0 = done + chans.take(ci as int);
                let ghost flat1 = done + chans.take(ci + 1 as int);
                proof {
                    assert(channel == chans[ci as int]);
                    assert(channels@ =~= chans.skip(ci + 1 as int));
                    assert(flat1 =~= flat0.push(chans[ci as int]));
                    assert(flat1.drop_last() =~= flat0);
                    assert(flat1.last() == chans[ci as int]);
                }
                let parsed = ExtnId::try_from(channel.symbol.id.as_str());
                match parsed {
                    Ok(extn_id) => {
                        if !channel.builder_present {
                            proof {
                                assert(!channel_ok(libs[li as int].channels@[ci as int]));
                            }
                            return Err(RippleError::BootstrapError);
                        }
                        match channel.channel {
                            Some(extn_channel) => {
                                let is_device = extn_id.is_device_channel();
                                proof {
                                    assert(is_device == input_is_device(chans[ci as int]));
                                }
                                let preloaded = PreLoadedExtnChannel {
                                    channel: extn_channel,
                                    extn_id,
                                    symbol: channel.symbol,
                                };
                                proof {
                                    assert(channel_entry_matches(chans[ci as int], preloaded));
                                }
                                if is_device {
                                    device_channels.push(preloaded);
                                    proof {
                                        assert(device_inputs(flat1) =~= device_inputs(flat0).push(
                                            chans[ci as int],
                                        ));
                                        assert(deferred_inputs(flat1) =~= deferred_inputs(flat0));
                                    }
                                } else {
                                    deferred_channels.push(preloaded);
                                    proof {
                                        assert(deferred_inputs(flat1) =~= deferred_inputs(
                                            flat0,
                                        ).push(chans[ci as int]));
                                        assert(device_inputs(flat1) =~= device_inputs(flat0));
                                    }
                                }
                            },
                            None => {
                                proof {
                                    assert(!channel_ok(libs[li as int].channels@[ci as int]));
                                }
                                return Err(RippleError::BootstrapError);
                            },
                        }
                    },
                    Err(_) => {
                        proof {
                            assert(!channel_ok(libs[li as int].channels@[ci as int]));
                        }
                        return Err(RippleError::BootstrapError);
                    },
                }
                ci = ci + 1;
            }
            proof {
                assert(chans.skip(nc as int).len() == 0);
                assert(forall|j: int| 0 <= j < nc ==> channel_ok(#[trigger] chans[j]));
                assert(chans.take(nc as int) =~= chans);
                assert(all_channels(libs.take(li + 1 as int)) =~= done + chans);
                assert forall|i: int, j: int|
                    0 <= i < libs.take(li + 1 as int).len() && 0 <= j < libs.take(
                        li + 1 as int,
                    )[i].channels@.len() implies channel_ok(
                    #[trigger] libs.take(li + 1 as int)[i].channels@[j],
                ) by {
                    if i < li {
                        assert(libs.take(li + 1 as int)[i] == libs.take(li as int)[i]);
                        assert(channel_ok(libs.take(li as int)[i].channels@[j]));
                    } else {
                        assert(libs.take(li + 1 as int)[i] == libs[li as int]);
                        assert(channel_ok(chans[j]));
                    }
                }
            }
            let ghost exts = lib.extensions@;
            let mut extensions = lib.extensions;
            let ne = extensions.len();
            let mut ei: usize = 0;
            while ei < ne
                invariant
                    ne == exts.len(),
                    extensions@ == exts.skip(ei as int),
                    ei <= ne,
                    collected@ == lib_contribs(libs.take(li as int)) + ext_contribs(
                        exts.take(ei as int),
                    ),
                    methods_names(jsonrpsee_extns) == acc_exts(
                        acc_libs(Set::<Seq<char>>::empty(), libs.take(li as int)),
                        exts.take(ei as int),
                    ),
                decreases ne - ei,
            {
                let extension = extensions.remove(0);
                proof {
                    assert(extension == exts[ei as int]);
                    assert(extensions@ =~= exts.skip(ei + 1 as int));
                    assert(exts.take(ei + 1 as int).drop_last() =~= exts.take(ei as int));
                    assert(exts.take(ei + 1 as int).last() == exts[ei as int]);
                }
                let parsed = ExtnId::try_from(extension.id.as_str());
                match parsed {
                    Ok(_extn_id) => {
                        if extension.has_methods_builder {
                            if let Some(open_rpc) = extension.open_rpc {
                                collected.push(open_rpc);
                            }
                            let _ = methods_merge(&mut jsonrpsee_extns, extension.methods);
                        }
                    },
                    Err(_) => {},
                }
                ei = ei + 1;
            }
            proof {
                assert(exts.take(ne as int) =~= exts);
                assert(lib_contribs(libs.take(li + 1 as int)) =~= lib_contribs(libs.take(li as int))
                    + ext_contribs(exts));
            }
            li = li + 1;
        }
        proof {
            assert(libs.take(nl as int) =~= libs);
        }
        self.commit(state, open_rpcs, device_channels, deferred_channels, jsonrpsee_extns, collected);
        Ok(())
    }

    /// Appends the built channels, merges the accumulated method table,
    /// and hands the OpenRPC contributions on.
    fn commit(
        &self,
        state: &mut ExtnState,
        open_rpcs: &mut Vec<Vec<MethodSchema>>,
        device_channels: Vec<PreLoadedExtnChannel>,
        deferred_channels: Vec<PreLoadedExtnChannel>,
        jsonrpsee_extns: Methods,
        collected: Vec<Vec<MethodSchema>>,
    )
        ensures
            final(state).device_channels@ == old(state).device_channels@ + device_channels@,
            final(state).deferred_channels@ == old(state).deferred_channels@ + deferred_channels@,
            final(open_rpcs)@ == old(open_rpcs)@ + collected@,
            methods_names(old(state).methods).disjoint(methods_names(jsonrpsee_extns))
                ==> methods_names(final(state).methods) == methods_names(old(state).methods).union(
                methods_names(jsonrpsee_extns),
            ),
            !methods_names(old(state).methods).disjoint(methods_names(jsonrpsee_extns))
                ==> methods_names(final(state).methods) == methods_names(old(state).methods),
    {
        let mut device_channels = device_channels;
        let mut deferred_channels = deferred_channels;
        let mut collected = collected;
        self.append_channels(&mut state.device_channels, &mut device_channels);
        self.append_channels(&mut state.deferred_channels, &mut deferred_channels);
        open_rpcs.append(&mut collected);
        let _ = methods_merge(&mut state.methods, jsonrpsee_extns);
    }

    fn append_channels(
        &self,
        dst: &mut Vec<PreLoadedExtnChannel>,
        src: &mut Vec<PreLoadedExtnChannel>,
    )
        ensures
            final(dst)@ == old(dst)@ + old(src)@,
    {
        dst.append(src);
    }
}

} // verus!
