//! The calling convention of the secondary runtime's exports, and the
//! bookkeeping of the one shared access point through which they are called.
//!
//! The embedding program owns the loaded runtime and performs the calls. It
//! asks a [`Bridge`] what to do for each operation, and gets an
//! [`Invocation`]: whether the string callback has to be registered first, and
//! the export to call with its marshaled arguments.

use crate::marshal::{marshal, marshaled, text_from_utf8, text_result_view, utf8_error_text};
use crate::marshal::{StringArg, StringArgView};
use vstd::prelude::*;
use vstd::string::*;
use vstd::utf8::*;

verus! {

/// The functions that the secondary runtime exports.
#[derive(Clone, Copy, Debug, PartialEq, Eq, Structural)]
pub enum Export {
    MakePlugin,
    MakeRepo,
    FillOutManifest,
    IsPathValid,
    SetCopyToCStringFunctionPtr,
}

/// What an export hands back as its return value.
#[derive(Clone, Copy, Debug, PartialEq, Eq, Structural)]
pub enum ReturnKind {
    /// A pointer to a narrow string that the caller owns from then on.
    OwnedText,
    /// A pointer that carries nothing and is not to be touched.
    Ignored,
    /// One byte, zero for no and anything else for yes.
    Flag,
    /// Nothing.
    Unit,
}

/// How one export is called.
#[derive(Clone, Copy, Debug, PartialEq, Eq, Structural)]
pub struct Convention {
    /// Number of string arguments, each a pointer and a count.
    pub text_args: usize,
    /// Number of output slots passed by reference after the string arguments;
    /// the callee puts a pointer to an owned narrow string into each.
    pub out_slots: usize,
    /// Whether the one argument is the string callback.
    pub takes_callback: bool,
    /// The return value.
    pub result: ReturnKind,
}

/// The type of the secondary runtime that holds the exports, qualified by its
/// assembly.
pub open spec fn spec_installer_type() -> Seq<char> {
    "HeliosphereInstaller.Installer, heliosphere-installer"@
}

/// The qualified type name under which every export is resolved.
pub fn installer_type() -> (name: &'static str)
    ensures
        name@ == spec_installer_type(),
{
    "HeliosphereInstaller.Installer, heliosphere-installer"
}

impl Export {
    /// The name under which the export is resolved.
    pub open spec fn spec_name(self) -> Seq<char> {
        match self {
            Export::MakePlugin => "MakePlugin"@,
            Export::MakeRepo => "MakeRepo"@,
            Export::FillOutManifest => "FillOutManifest"@,
            Export::IsPathValid => "IsPathValid"@,
            Export::SetCopyToCStringFunctionPtr => "SetCopyToCStringFunctionPtr"@,
        }
    }

    /// The name under which the export is resolved.
    pub fn name(&self) -> (name: &'static str)
        ensures
            name@ == self.spec_name(),
    {
        match self {
            Export::MakePlugin => "MakePlugin",
            Export::MakeRepo => "MakeRepo",
            Export::FillOutManifest => "FillOutManifest",
            Export::IsPathValid => "IsPathValid",
            Export::SetCopyToCStringFunctionPtr => "SetCopyToCStringFunctionPtr",
        }
    }

    /// How the export is called.
    pub open spec fn spec_convention(self) -> Convention {
        match self {
            Export::MakePlugin => Convention {
                text_args: 2,
                out_slots: 0,
                takes_callback: false,
                result: ReturnKind::OwnedText,
            },
            Export::MakeRepo => Convention {
                text_args: 1,
                out_slots: 0,
                takes_callback: false,
                result: ReturnKind::OwnedText,
            },
            Export::FillOutManifest => Convention {
                text_args: 3,
                out_slots: 2,
                takes_callback: false,
                result: ReturnKind::Ignored,
            },
            Export::IsPathValid => Convention {
                text_args: 1,
                out_slots: 0,
                takes_callback: false,
                result: ReturnKind::Flag,
            },
            Export::SetCopyToCStringFunctionPtr => Convention {
                text_args: 0,
                out_slots: 0,
                takes_callback: true,
                result: ReturnKind::Unit,
            },
        }
    }

    /// How the export is called.
    pub fn convention(&self) -> (convention: Convention)
        ensures
            convention == self.spec_convention(),
    {
        match self {
            Export::MakePlugin => Convention {
                text_args: 2,
                out_slots: 0,
                takes_callback: false,
                result: ReturnKind::OwnedText,
            },
            Export::MakeRepo => Convention {
                text_args: 1,
                out_slots: 0,
                takes_callback: false,
                result: ReturnKind::OwnedText,
            },
            Export::FillOutManifest => Convention {
                text_args: 3,
                out_slots: 2,
                takes_callback: false,
                result: ReturnKind::Ignored,
            },
            Export::IsPathValid => Convention {
                text_args: 1,
                out_slots: 0,
                takes_callback: false,
                result: ReturnKind::Flag,
            },
            Export::SetCopyToCStringFunctionPtr => Convention {
                text_args: 0,
                out_slots: 0,
                takes_callback: true,
                result: ReturnKind::Unit,
            },
        }
    }

    /// Whether the secondary runtime may produce a string while it runs the
    /// export, through an output slot or the return value. It does so with the
    /// registered callback.
    pub open spec fn produces_text(self) -> bool {
        self.spec_convention().out_slots > 0 || self.spec_convention().result
            == ReturnKind::OwnedText
    }
}

/// One call of an export with its string arguments, in order.
#[derive(Debug, PartialEq, Eq)]
pub struct ForeignCall {
    pub export: Export,
    pub args: Vec<StringArg>,
}

/// The mathematical value of a [`ForeignCall`].
pub struct ForeignCallView {
    pub export: Export,
    pub args: Seq<StringArgView>,
}

impl View for ForeignCall {
    type V = ForeignCallView;

    open spec fn view(&self) -> ForeignCallView {
        ForeignCallView { export: self.export, args: self.args@.map_values(|a: StringArg| a@) }
    }
}

impl ForeignCallView {
    /// The call passes as many strings as the export's convention says.
    pub open spec fn well_formed(self) -> bool {
        self.args.len() == self.export.spec_convention().text_args
    }
}

/// The call of `MakePlugin` for a plugin's internal name and a working id.
pub open spec fn spec_make_plugin_call(
    internal_name: Seq<char>,
    working_id: Seq<char>,
) -> ForeignCallView {
    ForeignCallView {
        export: Export::MakePlugin,
        args: seq![marshaled(internal_name), marshaled(working_id)],
    }
}

/// The call of `MakeRepo` for a repository URL.
pub open spec fn spec_make_repo_call(url: Seq<char>) -> ForeignCallView {
    ForeignCallView { export: Export::MakeRepo, args: seq![marshaled(url)] }
}

/// The call of `FillOutManifest` for a manifest, a working id and a repository
/// URL.
pub open spec fn spec_fill_out_manifest_call(
    manifest: Seq<char>,
    working_id: Seq<char>,
    repo_url: Seq<char>,
) -> ForeignCallView {
    ForeignCallView {
        export: Export::FillOutManifest,
        args: seq![marshaled(manifest), marshaled(working_id), marshaled(repo_url)],
    }
}

/// The call of `IsPathValid` for a path.
pub open spec fn spec_is_path_valid_call(path: Seq<char>) -> ForeignCallView {
    ForeignCallView { export: Export::IsPathValid, args: seq![marshaled(path)] }
}

/// Packs the call of `MakePlugin`.
pub fn make_plugin_call(internal_name: &str, working_id: &str) -> (call: ForeignCall)
    ensures
        call@ == spec_make_plugin_call(internal_name@, working_id@),
        call@.well_formed(),
{
    let mut args: Vec<StringArg> = Vec::new();
    args.push(marshal(internal_name));
    args.push(marshal(working_id));
    let call = ForeignCall { export: Export::MakePlugin, args };
    assert(call@.args =~= spec_make_plugin_call(internal_name@, working_id@).args);
    call
}

/// Packs the call of `MakeRepo`.
pub fn make_repo_call(url: &str) -> (call: ForeignCall)
    ensures
        call@ == spec_make_repo_call(url@),
        call@.well_formed(),
{
    let mut args: Vec<StringArg> = Vec::new();
    args.push(marshal(url));
    let call = ForeignCall { export: Export::MakeRepo, args };
    assert(call@.args =~= spec_make_repo_call(url@).args);
    call
}

/// Packs the call of `FillOutManifest`.
pub fn fill_out_manifest_call(manifest: &str, working_id: &str, repo_url: &str) -> (call:
    ForeignCall)
    ensures
        call@ == spec_fill_out_manifest_call(manifest@, working_id@, repo_url@),
        call@.well_formed(),
{
    let mut args: Vec<StringArg> = Vec::new();
    args.push(marshal(manifest));
    args.push(marshal(working_id));
    args.push(marshal(repo_url));
    let call = ForeignCall { export: Export::FillOutManifest, args };
    assert(call@.args =~= spec_fill_out_manifest_call(manifest@, working_id@, repo_url@).args);
    call
}

/// Packs the call of `IsPathValid`.
pub fn is_path_valid_call(path: &str) -> (call: ForeignCall)
    ensures
        call@ == spec_is_path_valid_call(path@),
        call@.well_formed(),
{
    let mut args: Vec<StringArg> = Vec::new();
    args.push(marshal(path));
    let call = ForeignCall { export: Export::IsPathValid, args };
    assert(call@.args =~= spec_is_path_valid_call(path@).args);
    call
}

/// What the embedding program does for one operation while it holds the
/// bridge: register the string callback if asked to, then make the call.
#[derive(Debug, PartialEq, Eq)]
pub struct Invocation {
    pub register_callback: bool,
    pub call: ForeignCall,
}

/// The state of the shared access point to the secondary runtime. It records
/// whether the string callback has been registered, so that registration is
/// asked for exactly once, before the first call.
#[derive(Debug)]
pub struct Bridge {
    registered: bool,
}

impl Bridge {
    /// Whether registration of the string callback has been asked for.
    pub closed spec fn callback_registered(&self) -> bool {
        self.registered
    }

    /// The bridge of a freshly loaded runtime: nothing registered yet.
    pub fn new() -> (bridge: Bridge)
        ensures
            !bridge.callback_registered(),
    {
        Bridge { registered: false }
    }

    /// Tells whether the caller has to register the string callback now. The
    /// answer is yes on the first call and no ever after.
    pub fn register_callback_once(&mut self) -> (register: bool)
        ensures
            register == !old(self).callback_registered(),
            final(self).callback_registered(),
    {
        let register = !self.registered;
        self.registered = true;
        register
    }

    /// Plans the round trip that makes a plugin stub.
    pub fn create_plugin(&mut self, internal_name: &str, working_id: &str) -> (plan: Invocation)
        ensures
            plan.register_callback == !old(self).callback_registered(),
            plan.call@ == spec_make_plugin_call(internal_name@, working_id@),
            final(self).callback_registered(),
    {
        let register_callback = self.register_callback_once();
        Invocation { register_callback, call: make_plugin_call(internal_name, working_id) }
    }

    /// Plans the round trip that makes a repository stub.
    pub fn create_repo(&mut self, url: &str) -> (plan: Invocation)
        ensures
            plan.register_callback == !old(self).callback_registered(),
            plan.call@ == spec_make_repo_call(url@),
            final(self).callback_registered(),
    {
        let register_callback = self.register_callback_once();
        Invocation { register_callback, call: make_repo_call(url) }
    }

    /// Plans the round trip that completes a manifest.
    pub fn fill_out_manifest(&mut self, manifest: &str, working_id: &str, repo_url: &str) -> (plan:
        Invocation)
        ensures
            plan.register_callback == !old(self).callback_registered(),
            plan.call@ == spec_fill_out_manifest_call(manifest@, working_id@, repo_url@),
            final(self).callback_registered(),
    {
        let register_callback = self.register_callback_once();
        Invocation {
            register_callback,
            call: fill_out_manifest_call(manifest, working_id, repo_url),
        }
    }

    /// Plans the round trip that asks the secondary runtime about a path.
    pub fn is_path_valid(&mut self, path: &str) -> (plan: Invocation)
        ensures
            plan.register_callback == !old(self).callback_registered(),
            plan.call@ == spec_is_path_valid_call(path@),
            final(self).callback_registered(),
    {
        let register_callback = self.register_callback_once();
        Invocation { register_callback, call: is_path_valid_call(path) }
    }
}

/// What a stub round trip yields for the bytes that came back: their text,
/// verbatim, or a message that says why they are not text.
pub open spec fn spec_stub_result(returned: Seq<u8>) -> Result<Seq<char>, Seq<char>> {
    if valid_utf8(returned) {
        Ok(decode_utf8(returned))
    } else {
        Err("invalid string: "@ + utf8_error_text(returned))
    }
}

/// Finishes a stub round trip (`MakePlugin`, `MakeRepo`): the returned buffer
/// is handed on verbatim as text, and a buffer that is not UTF-8 is an error.
pub fn stub_result(returned: Vec<u8>) -> (r: Result<String, String>)
    ensures
        text_result_view(r) == spec_stub_result(returned@),
{
    match text_from_utf8(returned) {
        Ok(text) => Ok(text),
        Err(cause) => Err(String::from_str("invalid string: ").concat(cause.as_str())),
    }
}

/// A stub comes back verbatim: when the returned buffer holds the UTF-8
/// bytes of some text, the round trip yields exactly that text.
pub proof fn lemma_stub_text_comes_back_verbatim(text: Seq<char>)
    ensures
        spec_stub_result(encode_utf8(text)) == Ok::<Seq<char>, Seq<char>>(text),
{
    encode_utf8_valid_utf8(text);
    encode_utf8_decode_utf8(text);
}

/// Each packed call passes as many strings as its export's convention says,
/// and only exports that can produce a string return one or fill a slot.
pub proof fn lemma_calls_follow_convention(a: Seq<char>, b: Seq<char>, c: Seq<char>)
    ensures
        spec_make_plugin_call(a, b).well_formed(),
        spec_make_repo_call(a).well_formed(),
        spec_fill_out_manifest_call(a, b, c).well_formed(),
        spec_is_path_valid_call(a).well_formed(),
        Export::MakePlugin.produces_text(),
        Export::MakeRepo.produces_text(),
        Export::FillOutManifest.produces_text(),
        !Export::IsPathValid.produces_text(),
        !Export::SetCopyToCStringFunctionPtr.produces_text(),
{
}

} // verus!
