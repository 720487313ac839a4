use vstd::prelude::*;

verus! {

/// Identifiers below this value are predefined by the clipboard subsystem;
/// identifiers at or above it are registered at run time under a name.
pub const CUSTOM_FORMAT_THRESHOLD: u32 = 0xC000;

/// Number of UTF-16 code units offered to a name lookup.
pub const FORMAT_NAME_CAPACITY: usize = 256;

/// Whether an identifier denotes a format registered under a name.
pub open spec fn is_custom_format(format_id: u32) -> bool {
    format_id >= CUSTOM_FORMAT_THRESHOLD
}

/// Mathematical content of one clipboard format.
pub struct FormatView {
    pub format_id: u32,
    pub format_name: Option<Seq<char>>,
    pub data: Seq<u8>,
}

/// One format held by the clipboard: its identifier, its name if it was
/// registered under one, and its payload.
#[derive(Debug, Clone, PartialEq, Eq)]
pub struct WindowsClipboardFormat {
    pub format_id: u32,
    pub format_name: Option<String>,
    pub data: Vec<u8>,
}

impl View for WindowsClipboardFormat {
    type V = FormatView;

    open spec fn view(&self) -> FormatView {
        FormatView {
            format_id: self.format_id,
            format_name: match self.format_name {
                Some(name) => Some(name@),
                None => None,
            },
            data: self.data@,
        }
    }
}

/// The formats of a clipboard at one instant, in the order of enumeration.
#[derive(Debug, Clone, PartialEq, Eq)]
pub struct WindowsClipboardSnapshot {
    pub formats: Vec<WindowsClipboardFormat>,
}

/// The contents of a sequence of formats.
pub open spec fn formats_view(formats: Seq<WindowsClipboardFormat>) -> Seq<FormatView> {
    formats.map_values(|f: WindowsClipboardFormat| f@)
}

impl View for WindowsClipboardSnapshot {
    type V = Seq<FormatView>;

    open spec fn view(&self) -> Seq<FormatView> {
        formats_view(self.formats@)
    }
}

/// Only formats registered at run time carry a name.
pub open spec fn names_only_on_custom(formats: Seq<FormatView>) -> bool {
    forall|i: int|
        0 <= i < formats.len() ==> ((#[trigger] formats[i]).format_name is Some
            ==> is_custom_format(formats[i].format_id))
}

/// A format carries a name exactly when it was registered at run time.
pub open spec fn names_match_identifiers(formats: Seq<FormatView>) -> bool {
    forall|i: int|
        0 <= i < formats.len() ==> ((#[trigger] formats[i]).format_name is Some
            <==> is_custom_format(formats[i].format_id))
}

/// Pushing a format onto a vector pushes its contents onto the view.
pub proof fn lemma_formats_view_push(formats: Seq<WindowsClipboardFormat>, f: WindowsClipboardFormat)
    ensures
        formats_view(formats.push(f)) == formats_view(formats).push(f@),
{
    assert(formats_view(formats.push(f)) =~= formats_view(formats).push(f@));
}

} // verus!
