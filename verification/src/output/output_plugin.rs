//! Registration of the plugin and the layout of the exported table.

use vstd::prelude::*;
use vstd::string::StrSliceExecFns;
use vstd::string::StringExecFns;

use super::error::Error;
use super::sys;

verus! {

/// The longest text, in characters, that is handed to the encoder.
///
/// A character takes at most four bytes, and the encoder sizes its buffer
/// from the byte length: below this limit no size it computes can overflow.
pub const MAX_TEXT_CHARS: usize = 0x40_0000;

/// One entry of the file-type list in the save dialog.
#[derive(Debug)]
pub struct FileFilterEntry {
    /// What the entry is called.
    pub name: &'static str,
    /// The glob pattern of the files, such as `*.webp`.
    pub filter: &'static str,
}

/// What a plugin says about itself.
#[derive(Debug)]
pub struct OutputPluginTableInfo {
    /// The display name of the plugin.
    pub name: &'static str,
    /// The file types that it writes.
    pub filefilter: &'static [FileFilterEntry],
    /// A free-form line about the plugin.
    pub information: &'static str,
    /// Whether the plugin has a configuration dialog.
    pub has_config: bool,
}

/// The Shift_JIS form of `text`, as the encoder of the host's code page gives
/// it: characters outside the code page become decimal character references.
pub uninterp spec fn shift_jis(text: Seq<char>) -> Seq<u8>;

/// Calls `encoding_rs::Encoding::encode` on `SHIFT_JIS` and keeps the bytes.
///
/// Trusted: the bytes are a function of the text alone.  The limit on the
/// length keeps the encoder's buffer sizes far from `usize::MAX`, where it
/// would panic.
#[verifier::external_body]
fn shift_jis_encode(s: &str) -> (bytes: Vec<u8>)
    requires
        s@.len() <= MAX_TEXT_CHARS,
    ensures
        bytes@ == shift_jis(s@),
{
    encoding_rs::SHIFT_JIS.encode(s).0.to_vec()
}

/// Whether `text` is short enough to be encoded.
pub open spec fn text_fits(text: Seq<char>) -> bool {
    text.len() <= MAX_TEXT_CHARS
}

/// Encodes `s` for the host.
pub fn encode(s: &str) -> (r: Result<Vec<u8>, Error>)
    ensures
        text_fits(s@) ==> r is Ok && r->Ok_0@ == shift_jis(s@),
        !text_fits(s@) ==> r == Err::<Vec<u8>, Error>(Error::TextTooLong),
{
    if s.unicode_len() > MAX_TEXT_CHARS {
        return Err(Error::TextTooLong);
    }
    Ok(shift_jis_encode(s))
}

/// The line that the save dialog shows for an entry: `name (filter)`.
pub open spec fn spec_filter_label(name: Seq<char>, filter: Seq<char>) -> Seq<char> {
    name + seq![' ', '('] + filter + seq![')']
}

/// The line that the save dialog shows for `entry`.
pub fn filter_label(entry: &FileFilterEntry) -> (label: String)
    ensures
        label@ == spec_filter_label(entry.name@, entry.filter@),
{
    proof {
        reveal_strlit(" (");
        reveal_strlit(")");
    }
    String::from_str(entry.name).concat(" (").concat(entry.filter).concat(")")
}

/// The label and the pattern of each entry, already encoded.
pub open spec fn filter_blocks(encoded: Seq<(Seq<u8>, Seq<u8>)>) -> Seq<u8>
    decreases encoded.len(),
{
    if encoded.len() == 0 {
        Seq::empty()
    } else {
        filter_blocks(encoded.drop_last()) + encoded.last().0 + seq![0u8] + encoded.last().1
            + seq![0u8]
    }
}

/// The string table of the file types: for each entry its label and its
/// pattern, each closed by a NUL, and an empty string at the end.
pub open spec fn spec_flatten(encoded: Seq<(Seq<u8>, Seq<u8>)>) -> Seq<u8> {
    filter_blocks(encoded) + seq![0u8]
}

/// The pairs of byte strings that `encoded` holds.
pub open spec fn encoded_view(encoded: Seq<(Vec<u8>, Vec<u8>)>) -> Seq<(Seq<u8>, Seq<u8>)> {
    Seq::new(encoded.len(), |i: int| (encoded[i].0@, encoded[i].1@))
}

fn append_bytes(dst: &mut Vec<u8>, src: &Vec<u8>)
    ensures
        final(dst)@ == old(dst)@ + src@,
{
    let mut i: usize = 0;
    while i < src.len()
        invariant
            i <= src.len(),
            dst@ == old(dst)@ + src@.take(i as int),
        decreases src.len() - i,
    {
        dst.push(src[i]);
        assert(src@.take(i + 1) =~= src@.take(i as int).push(src@[i as int]));
        i += 1;
    }
    assert(src@.take(src.len() as int) =~= src@);
}

/// Lays the encoded labels and patterns out as the host's string table.
pub fn flatten_filter_table(encoded: &Vec<(Vec<u8>, Vec<u8>)>) -> (table: Vec<u8>)
    ensures
        table@ == spec_flatten(encoded_view(encoded@)),
{
    let mut table: Vec<u8> = Vec::new();
    let mut i: usize = 0;
    while i < encoded.len()
        invariant
            i <= encoded.len(),
            table@ == filter_blocks(encoded_view(encoded@).take(i as int)),
        decreases encoded.len() - i,
    {
        let ghost before = encoded_view(encoded@).take(i as int);
        let ghost after = encoded_view(encoded@).take(i + 1);
        append_bytes(&mut table, &encoded[i].0);
        table.push(0);
        append_bytes(&mut table, &encoded[i].1);
        table.push(0);
        proof {
            assert(after.drop_last() =~= before);
            assert(after.last() == (encoded@[i as int].0@, encoded@[i as int].1@));
        }
        i += 1;
    }
    assert(encoded_view(encoded@).take(encoded.len() as int) =~= encoded_view(encoded@));
    table.push(0);
    table
}

/// The encoded label and pattern of each entry.
pub open spec fn spec_encoded_filters(filters: Seq<FileFilterEntry>) -> Seq<(Seq<u8>, Seq<u8>)> {
    Seq::new(
        filters.len(),
        |i: int|
            (
                shift_jis(spec_filter_label(filters[i].name@, filters[i].filter@)),
                shift_jis(filters[i].filter@),
            ),
    )
}

/// Whether the label of every entry is short enough to be encoded.
pub open spec fn filters_fit(filters: Seq<FileFilterEntry>) -> bool {
    forall|i: int|
        0 <= i < filters.len() ==> text_fits(
            #[trigger] spec_filter_label(filters[i].name@, filters[i].filter@),
        )
}

/// The string table of the file types of a plugin.
pub open spec fn spec_filter_table(filters: Seq<FileFilterEntry>) -> Seq<u8> {
    spec_flatten(spec_encoded_filters(filters))
}

/// Builds the string table of the file types in `filters`.
pub fn filter_table(filters: &[FileFilterEntry]) -> (r: Result<Vec<u8>, Error>)
    ensures
        filters_fit(filters@) ==> r is Ok && r->Ok_0@ == spec_filter_table(filters@),
        !filters_fit(filters@) ==> r == Err::<Vec<u8>, Error>(Error::TextTooLong),
{
    let mut encoded: Vec<(Vec<u8>, Vec<u8>)> = Vec::new();
    let mut i: usize = 0;
    while i < filters.len()
        invariant
            i <= filters.len(),
            filters_fit(filters@.take(i as int)),
            encoded_view(encoded@) == spec_encoded_filters(filters@.take(i as int)),
        decreases filters.len() - i,
    {
        let entry = &filters[i];
        let label = filter_label(entry);
        let ghost label_chars = spec_filter_label(filters@[i as int].name@, filters@[i as int].filter@);
        if label.as_str().unicode_len() > MAX_TEXT_CHARS {
            return Err(Error::TextTooLong);
        }
        let label_bytes = shift_jis_encode(label.as_str());
        let pattern_bytes = shift_jis_encode(entry.filter);
        let ghost encoded_before = encoded@;
        assert(encoded_view(encoded_before).len() == i);
        encoded.push((label_bytes, pattern_bytes));
        proof {
            let before = filters@.take(i as int);
            let after = filters@.take(i + 1);
            assert forall|j: int| 0 <= j < after.len() implies text_fits(
                #[trigger] spec_filter_label(after[j].name@, after[j].filter@),
            ) by {
                if j < i {
                    assert(after[j] == before[j]);
                }
            }
            assert(encoded_view(encoded@) =~= spec_encoded_filters(after)) by {
                assert forall|j: int| 0 <= j < after.len() implies encoded_view(encoded@)[j]
                    == spec_encoded_filters(after)[j] by {
                    if j < i {
                        assert(after[j] == before[j]);
                        assert(encoded@[j] == encoded_before[j]);
                        assert(encoded_view(encoded_before)[j] == spec_encoded_filters(before)[j]);
                    }
                }
            }
        }
        i += 1;
    }
    assert(filters@.take(filters.len() as int) =~= filters@);
    Ok(flatten_filter_table(&encoded))
}

/// Closes `bytes` with a NUL, as a C string, unless a NUL already stands in it.
pub fn c_string(bytes: Vec<u8>) -> (r: Result<Vec<u8>, Error>)
    ensures
        !bytes@.contains(0u8) ==> r is Ok && r->Ok_0@ == bytes@.push(0u8),
        bytes@.contains(0u8) ==> r == Err::<Vec<u8>, Error>(Error::InteriorNul),
{
    let mut i: usize = 0;
    while i < bytes.len()
        invariant
            i <= bytes.len(),
            forall|j: int| 0 <= j < i ==> bytes@[j] != 0,
        decreases bytes.len() - i,
    {
        if bytes[i] == 0 {
            return Err(Error::InteriorNul);
        }
        i += 1;
    }
    let mut text = bytes;
    text.push(0);
    Ok(text)
}

/// Whether every text of `info` is short enough to be encoded.
pub open spec fn info_fits(info: OutputPluginTableInfo) -> bool {
    &&& text_fits(info.name@)
    &&& filters_fit(info.filefilter@)
    &&& text_fits(info.information@)
}

/// Whether `table` is the exported table of a plugin that describes itself
/// by `info`.
pub open spec fn is_table_of(table: sys::OutputPluginTable, info: OutputPluginTableInfo) -> bool {
    &&& table.flag == 0
    &&& table.name@ == shift_jis(info.name@).push(0u8)
    &&& table.filefilter@ == spec_filter_table(info.filefilter@)
    &&& table.information@ == shift_jis(info.information@).push(0u8)
    &&& table.has_config == info.has_config
}

/// Builds the exported table of a plugin that describes itself by `info`.
pub fn build_table(info: &OutputPluginTableInfo) -> (r: Result<sys::OutputPluginTable, Error>)
    ensures
        r == Err::<sys::OutputPluginTable, Error>(Error::TextTooLong) <==> !info_fits(*info),
        r == Err::<sys::OutputPluginTable, Error>(Error::InteriorNul) <==> info_fits(*info) && (
        shift_jis(info.name@).contains(0u8) || shift_jis(info.information@).contains(0u8)),
        r matches Ok(table) ==> is_table_of(table, *info),
        r matches Err(e) ==> e == Error::TextTooLong || e == Error::InteriorNul,
{
    let name = encode(info.name)?;
    let filefilter = filter_table(info.filefilter)?;
    let information = encode(info.information)?;
    let name = c_string(name)?;
    let information = c_string(information)?;
    Ok(sys::OutputPluginTable { flag: 0, name, filefilter, information, has_config: info.has_config })
}

/// Whether a plugin has been registered in this process.
///
/// There is one registry for the life of the process.  It starts empty, takes
/// one plugin, and keeps it.
#[derive(Debug)]
pub struct Registry {
    initialized: bool,
}

impl Registry {
    /// Whether a plugin is registered.
    pub closed spec fn spec_initialized(&self) -> bool {
        self.initialized
    }

    /// The registry of a process that has registered nothing.
    pub fn new() -> (registry: Self)
        ensures
            !registry.spec_initialized(),
    {
        Registry { initialized: false }
    }

    /// Whether a plugin is registered.
    pub fn initialized(&self) -> (b: bool)
        ensures
            b == self.spec_initialized(),
    {
        self.initialized
    }

    /// Admits a call of an entry point: the host may only call one once a
    /// plugin is registered.
    pub fn entry(&self) -> (r: Result<(), Error>)
        ensures
            self.spec_initialized() ==> r is Ok,
            !self.spec_initialized() ==> r == Err::<(), Error>(Error::NotInitialized),
    {
        if self.initialized {
            Ok(())
        } else {
            Err(Error::NotInitialized)
        }
    }
}

/// The reason for which a registry refuses the plugin that describes itself
/// by `info`, if it does: a plugin is registered already, or a text of
/// `info` cannot be handed to the host.
pub open spec fn init_error(initialized: bool, info: OutputPluginTableInfo) -> Option<Error> {
    if initialized {
        Some(Error::AlreadyInitialized)
    } else if !info_fits(info) {
        Some(Error::TextTooLong)
    } else if shift_jis(info.name@).contains(0u8) || shift_jis(info.information@).contains(0u8) {
        Some(Error::InteriorNul)
    } else {
        None
    }
}

/// Registers the plugin that describes itself by `info`, and builds the table
/// that is exported for it.
///
/// A process registers one plugin: once a registration has succeeded, every
/// later one is refused.  A registration that fails leaves the registry as
/// it was.
pub fn _init(registry: &mut Registry, info: &OutputPluginTableInfo) -> (r: Result<
    sys::OutputPluginTable,
    Error,
>)
    ensures
        r is Err <==> init_error(old(registry).spec_initialized(), *info) is Some,
        r is Err ==> Some(r->Err_0) == init_error(old(registry).spec_initialized(), *info)
            && *final(registry) == *old(registry),
        r is Ok ==> is_table_of(r->Ok_0, *info) && final(registry).spec_initialized(),
{
    if registry.initialized {
        return Err(Error::AlreadyInitialized);
    }
    let table = build_table(info)?;
    registry.initialized = true;
    Ok(table)
}

/// A process registers one plugin: whatever a second plugin says of itself,
/// a registry that holds a plugin refuses it as already initialized.
pub proof fn lemma_registered_once(registry: Registry, second: OutputPluginTableInfo)
    requires
        registry.spec_initialized(),
    ensures
        init_error(registry.spec_initialized(), second) == Some(Error::AlreadyInitialized),
{
}

/// The host's word for success.
pub const TRUE: i32 = 1;

/// The host's word for failure.
pub const FALSE: i32 = 0;

/// The outcome of a job as the host is told it.
pub open spec fn spec_output_status(failure: Option<Seq<char>>) -> (i32, Option<Seq<char>>) {
    match failure {
        None => (TRUE, None),
        Some(message) => (FALSE, Some("Error(output): "@ + message)),
    }
}

/// Turns the outcome of the plugin's work on a job into what the `output`
/// entry point does with it.
///
/// The host takes one word, success or failure.  What the plugin said of a
/// failure goes no further than a line for the log, which is the second part
/// of the result.
pub fn output_status(result: Result<(), String>) -> (status: (i32, Option<String>))
    ensures
        result is Ok ==> status.0 == TRUE && status.1 is None,
        result is Err ==> status.0 == FALSE && status.1 is Some && status.1->0@
            == "Error(output): "@ + result->Err_0@,
{
    match result {
        Ok(_) => (TRUE, None),
        Err(message) => {
            let line = String::from_str("Error(output): ").concat(message.as_str());
            (FALSE, Some(line))
        },
    }
}

} // verus!
