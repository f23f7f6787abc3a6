//! Reading an archive of named entries out of bytes, as the `zip` crate
//! understands them. The archive is parsed by `zip`; this module asks it for one
//! position after the other and hands the entries on as plain values.

use crate::errors::ProvisionError;
use vstd::prelude::*;

verus! {

/// The reader of `zip` over some source of bytes. Nothing of its inside is known
/// here.
#[verifier::external_type_specification]
#[verifier::external_body]
#[verifier::reject_recursive_types(R)]
pub struct ExZipArchive<R>(zip::ZipArchive<R>);

/// The in-memory source of bytes of std that the reader works on.
#[verifier::external_type_specification]
#[verifier::external_body]
#[verifier::reject_recursive_types(T)]
pub struct ExCursor<T>(std::io::Cursor<T>);

/// The error of `zip`.
#[verifier::external_type_specification]
#[verifier::external_body]
pub struct ExZipError(zip::result::ZipError);

/// The error of std's readers.
#[verifier::external_type_specification]
#[verifier::external_body]
pub struct ExIoError(std::io::Error);

/// One entry of an archive, as plain text and bytes.
pub struct EntryView {
    /// The name as the archive has it.
    pub name: Seq<char>,
    /// The name again, if it is safe as a path below a directory.
    pub enclosed: Option<Seq<char>>,
    /// The content, if it could be read.
    pub content: Option<Seq<u8>>,
}

/// What one position of an archive gives when it is asked for its entry.
pub enum SlotView {
    /// The entry wants a password.
    Locked,
    /// The entry cannot be reached.
    Unreadable,
    /// The entry.
    File(EntryView),
}

/// What the positions of an opened archive give, from the first to the last.
pub uninterp spec fn archive_slots(archive: zip::ZipArchive<std::io::Cursor<Vec<u8>>>) -> Seq<
    SlotView,
>;

/// What the positions of the archive in `bytes` give, if `bytes` can be opened
/// as an archive at all.
pub uninterp spec fn zip_listing(bytes: Seq<u8>) -> Option<Seq<SlotView>>;

/// What `zip` hands out for one entry.
struct EntryParts {
    name: String,
    enclosed: Option<String>,
    content: Result<Vec<u8>, std::io::Error>,
}

impl View for EntryParts {
    type V = EntryView;

    closed spec fn view(&self) -> EntryView {
        EntryView {
            name: self.name@,
            enclosed: match self.enclosed {
                Some(p) => Some(p@),
                None => None,
            },
            content: match self.content {
                Ok(data) => Some(data@),
                Err(_) => None,
            },
        }
    }
}

/// `ZipArchive::new` of `zip`, on a `Cursor` over `bytes`. It either refuses the
/// bytes or gives a reader; which of the two, and what the reader's positions
/// give, depends on the bytes alone.
#[verifier::external_body]
fn open_archive(bytes: Vec<u8>) -> (r: Result<
    zip::ZipArchive<std::io::Cursor<Vec<u8>>>,
    zip::result::ZipError,
>)
    ensures
        match r {
            Ok(archive) => zip_listing(bytes@) == Some(archive_slots(archive)),
            Err(_) => zip_listing(bytes@) is None,
        },
{
    zip::ZipArchive::new(std::io::Cursor::new(bytes))
}

/// `ZipArchive::len` of `zip`: the number of positions.
#[verifier::external_body]
fn slot_count(archive: &zip::ZipArchive<std::io::Cursor<Vec<u8>>>) -> (n: usize)
    ensures
        n == archive_slots(*archive).len(),
{
    archive.len()
}

/// `ZipArchive::by_index_decrypt` of `zip`, with the empty password: tells
/// whether the position answers that the password is wrong. Unlike `by_index`
/// it hands that answer back and does not panic on it. The archive holds
/// afterwards what it held.
#[verifier::external_body]
fn slot_is_locked(archive: &mut zip::ZipArchive<std::io::Cursor<Vec<u8>>>, i: usize) -> (locked:
    bool)
    requires
        i < archive_slots(*old(archive)).len(),
    ensures
        archive_slots(*final(archive)) == archive_slots(*old(archive)),
        locked == (archive_slots(*old(archive))[i as int] is Locked),
{
    match archive.by_index_decrypt(i, &[]) {
        Ok(Ok(_)) => false,
        Ok(Err(_)) => true,
        Err(_) => false,
    }
}

/// `ZipArchive::by_index` of `zip`, with the entry handed out as plain values:
/// its `name`, its `enclosed_name` (which, where there is one, is the name
/// itself) and all that `read_to_end` gives of it. An error means that the
/// position cannot be reached. `by_index` can panic, and only on a position that
/// `slot_is_locked` reports: such a position is left out. The archive holds
/// afterwards what it held.
#[verifier::external_body]
fn read_slot(archive: &mut zip::ZipArchive<std::io::Cursor<Vec<u8>>>, i: usize) -> (r: Result<
    EntryParts,
    zip::result::ZipError,
>)
    requires
        i < archive_slots(*old(archive)).len(),
        !(archive_slots(*old(archive))[i as int] is Locked),
    ensures
        archive_slots(*final(archive)) == archive_slots(*old(archive)),
        match r {
            Ok(parts) => archive_slots(*old(archive))[i as int] == SlotView::File(parts@)
                && (parts.enclosed matches Some(p) ==> p@ == parts.name@),
            Err(_) => archive_slots(*old(archive))[i as int] is Unreadable,
        },
{
    let mut file = archive.by_index(i)?;
    let name = file.name().to_string();
    let enclosed = match file.enclosed_name() {
        Some(path) => Some(path.to_string_lossy().into_owned()),
        None => None,
    };
    let mut data = Vec::new();
    let content = match std::io::Read::read_to_end(&mut file, &mut data) {
        Ok(_) => Ok(data),
        Err(e) => Err(e),
    };
    Ok(EntryParts { name, enclosed, content })
}

/// One entry of an archive.
#[derive(Debug)]
pub struct Entry {
    /// The name as the archive has it.
    pub name: String,
    /// The name again, if it is safe as a path below a directory.
    pub enclosed: Option<String>,
    /// The content, if it could be read.
    pub content: Option<Vec<u8>>,
}

impl View for Entry {
    type V = EntryView;

    open spec fn view(&self) -> EntryView {
        EntryView {
            name: self.name@,
            enclosed: match self.enclosed {
                Some(p) => Some(p@),
                None => None,
            },
            content: match self.content {
                Some(data) => Some(data@),
                None => None,
            },
        }
    }
}

/// What one position of an archive gave.
#[derive(Debug)]
pub enum Slot {
    /// The entry wants a password.
    Locked,
    /// The entry cannot be reached.
    Unreadable,
    /// The entry.
    File(Entry),
}

impl View for Slot {
    type V = SlotView;

    open spec fn view(&self) -> SlotView {
        match self {
            Slot::Locked => SlotView::Locked,
            Slot::Unreadable => SlotView::Unreadable,
            Slot::File(entry) => SlotView::File(entry@),
        }
    }
}

/// The positions of an archive as plain values.
pub open spec fn slots_view(slots: Seq<Slot>) -> Seq<SlotView> {
    slots.map_values(|slot: Slot| slot@)
}

fn entry_of(parts: EntryParts) -> (entry: Entry)
    ensures
        entry@ == parts@,
        entry.name == parts.name,
        entry.enclosed == parts.enclosed,
{
    let content = match parts.content {
        Ok(data) => Some(data),
        Err(_) => None,
    };
    Entry { name: parts.name, enclosed: parts.enclosed, content }
}

/// Opens `bytes` as an archive and reads every position of it. Bytes that are no
/// archive give `MalformedArchive`, and nothing else does; an entry that cannot
/// be read does not fail the whole, it shows in its position. Where an entry has
/// an enclosed name, that name is the entry's name.
pub fn read_archive(bytes: Vec<u8>) -> (r: Result<Vec<Slot>, ProvisionError>)
    ensures
        match r {
            Ok(slots) => zip_listing(bytes@) == Some(slots_view(slots@)),
            Err(e) => e == ProvisionError::MalformedArchive && zip_listing(bytes@) is None,
        },
        r matches Ok(slots) ==> forall|i: int|
            0 <= i < slots.len() ==> (#[trigger] slots[i] matches Slot::File(entry)
                ==> (entry.enclosed matches Some(p) ==> p@ == entry.name@)),
{
    let mut archive = match open_archive(bytes) {
        Ok(archive) => archive,
        Err(_) => {
            return Err(ProvisionError::MalformedArchive);
        },
    };
    let n = slot_count(&archive);
    let ghost listing = archive_slots(archive);
    let mut slots: Vec<Slot> = Vec::new();
    let mut i: usize = 0;
    while i < n
        invariant
            archive_slots(archive) == listing,
            n == listing.len(),
            i <= n,
            slots_view(slots@) == listing.take(i as int),
            forall|k: int|
                0 <= k < slots.len() ==> (#[trigger] slots[k] matches Slot::File(entry)
                    ==> (entry.enclosed matches Some(p) ==> p@ == entry.name@)),
        decreases n - i,
    {
        let slot = if slot_is_locked(&mut archive, i) {
            Slot::Locked
        } else {
            match read_slot(&mut archive, i) {
                Ok(parts) => Slot::File(entry_of(parts)),
                Err(_) => Slot::Unreadable,
            }
        };
        slots.push(slot);
        proof {
            assert(listing.take(i + 1) =~= listing.take(i as int).push(listing[i as int]));
        }
        i += 1;
    }
    Ok(slots)
}

} // verus!
