//! Disks, their partitions and volumes, and the recycle bin.

use vstd::prelude::*;
use vstd::string::*;
use crate::command::{powershell, Invocation, InvocationView};
use crate::error::{ErrorKind, ErrorView};
use crate::execution::{utf8_lossy, ExecutionResult};
use crate::flow::Step;
use crate::json::{JsonTree, JsonValue};
use crate::mapper::{
    acknowledge, acknowledged, bool_at, bool_field, char_at, char_field, integer_at, integer_field,
    list_records, listed, read_output, text_at, text_field, text_field_or, text_or, typed_output,
    yields_all, yields_unit, Record,
};
use crate::text::{
    chars_of, decimal, decimal_of, parse_unsigned, parsed_unsigned, text_of, trim, trimmed, views,
    lemma_views_push,
};
use crate::validate::{
    drive_letter_of, file_system_of, is_ascii_letter, parse_drive_letter, parse_file_system,
};

verus! {

// ---------------------------------------------------------------------------
// Records
// ---------------------------------------------------------------------------

#[derive(Debug)]
pub struct DiskInfo {
    pub disk_number: u32,
    pub name: String,
    pub mount_point: String,
    pub total_space: u64,
    pub available_space: u64,
    pub file_system: String,
    pub is_removable: bool,
}

pub struct DiskView {
    pub disk_number: u32,
    pub name: Seq<char>,
    pub mount_point: Seq<char>,
    pub total_space: u64,
    pub available_space: u64,
    pub file_system: Seq<char>,
    pub is_removable: bool,
}

impl View for DiskInfo {
    type V = DiskView;

    open spec fn view(&self) -> DiskView {
        DiskView {
            disk_number: self.disk_number,
            name: self.name@,
            mount_point: self.mount_point@,
            total_space: self.total_space,
            available_space: self.available_space,
            file_system: self.file_system@,
            is_removable: self.is_removable,
        }
    }
}

#[derive(Debug)]
pub struct PartitionInfo {
    pub number: u32,
    pub drive_letter: Option<char>,
    pub size: u64,
    pub partition_type: String,
}

pub struct PartitionView {
    pub number: u32,
    pub drive_letter: Option<char>,
    pub size: u64,
    pub partition_type: Seq<char>,
}

impl View for PartitionInfo {
    type V = PartitionView;

    open spec fn view(&self) -> PartitionView {
        PartitionView {
            number: self.number,
            drive_letter: self.drive_letter,
            size: self.size,
            partition_type: self.partition_type@,
        }
    }
}

/// A disk as the list of disks reports it.
#[derive(Debug)]
pub struct ReportedDisk {
    pub number: u32,
    pub friendly_name: String,
    pub size: u64,
    pub is_removable: bool,
}

pub struct ReportedDiskView {
    pub number: u32,
    pub friendly_name: Seq<char>,
    pub size: u64,
    pub is_removable: bool,
}

impl View for ReportedDisk {
    type V = ReportedDiskView;

    open spec fn view(&self) -> ReportedDiskView {
        ReportedDiskView {
            number: self.number,
            friendly_name: self.friendly_name@,
            size: self.size,
            is_removable: self.is_removable,
        }
    }
}

/// The integer of the member `name` as 64 bits without sign.
pub open spec fn u64_at(tree: JsonTree, name: Seq<char>) -> Option<u64> {
    match integer_at(tree, name, 0, u64::MAX as int) {
        Some(i) => Some(i as u64),
        None => None,
    }
}

pub fn u64_field(value: &JsonValue, name: &str) -> (r: Option<u64>)
    ensures
        r == u64_at(value@, name@),
{
    match integer_field(value, name, 0, 0xFFFF_FFFF_FFFF_FFFF) {
        Some(i) => Some(i as u64),
        None => None,
    }
}

/// The integer of the member `name` as 32 bits without sign.
pub open spec fn u32_at(tree: JsonTree, name: Seq<char>) -> Option<u32> {
    match integer_at(tree, name, 0, u32::MAX as int) {
        Some(i) => Some(i as u32),
        None => None,
    }
}

pub fn u32_field(value: &JsonValue, name: &str) -> (r: Option<u32>)
    ensures
        r == u32_at(value@, name@),
{
    match integer_field(value, name, 0, 0xFFFF_FFFF) {
        Some(i) => Some(i as u32),
        None => None,
    }
}

impl Record for ReportedDisk {
    /// A disk needs its number, its name and its size.
    open spec fn mapped(tree: JsonTree) -> Option<ReportedDiskView> {
        match (u32_at(tree, "Number"@), text_at(tree, "FriendlyName"@), u64_at(tree, "Size"@)) {
            (Some(number), Some(friendly_name), Some(size)) => Some(
                ReportedDiskView {
                    number,
                    friendly_name,
                    size,
                    is_removable: match bool_at(tree, "IsRemovable"@) {
                        Some(b) => b,
                        None => false,
                    },
                },
            ),
            _ => None,
        }
    }

    fn map(value: &JsonValue) -> (r: Option<ReportedDisk>) {
        let number = u32_field(value, "Number")?;
        let friendly_name = text_field(value, "FriendlyName")?;
        let size = u64_field(value, "Size")?;
        Some(
            ReportedDisk {
                number,
                friendly_name,
                size,
                is_removable: match bool_field(value, "IsRemovable") {
                    Some(b) => b,
                    None => false,
                },
            },
        )
    }
}

impl Record for PartitionInfo {
    /// A partition needs its number, its size and its type.
    open spec fn mapped(tree: JsonTree) -> Option<PartitionView> {
        match (u32_at(tree, "PartitionNumber"@), u64_at(tree, "Size"@), text_at(tree, "Type"@)) {
            (Some(number), Some(size), Some(partition_type)) => Some(
                PartitionView {
                    number,
                    drive_letter: char_at(tree, "DriveLetter"@),
                    size,
                    partition_type,
                },
            ),
            _ => None,
        }
    }

    fn map(value: &JsonValue) -> (r: Option<PartitionInfo>) {
        let number = u32_field(value, "PartitionNumber")?;
        let size = u64_field(value, "Size")?;
        let partition_type = text_field(value, "Type")?;
        Some(
            PartitionInfo {
                number,
                drive_letter: char_field(value, "DriveLetter"),
                size,
                partition_type,
            },
        )
    }
}

/// The drive letter of a partition, where it has one.
#[derive(Debug)]
pub struct PartitionLetter {
    pub letter: Option<char>,
}

impl View for PartitionLetter {
    type V = Option<char>;

    open spec fn view(&self) -> Option<char> {
        self.letter
    }
}

impl Record for PartitionLetter {
    /// Any object is a partition; its letter counts where it is one ASCII
    /// letter.
    open spec fn mapped(tree: JsonTree) -> Option<Option<char>> {
        if tree is Object {
            Some(
                match char_at(tree, "DriveLetter"@) {
                    Some(c) => if is_ascii_letter(c) {
                        Some(c)
                    } else {
                        None
                    },
                    None => None,
                },
            )
        } else {
            None
        }
    }

    fn map(value: &JsonValue) -> (r: Option<PartitionLetter>) {
        if !value.is_object() {
            return None;
        }
        let letter = match char_field(value, "DriveLetter") {
            Some(c) => if (c >= 'a' && c <= 'z') || (c >= 'A' && c <= 'Z') {
                Some(c)
            } else {
                None
            },
            None => None,
        };
        Some(PartitionLetter { letter })
    }
}

/// What a volume reports of itself.
#[derive(Debug)]
pub struct VolumeSpace {
    pub file_system: String,
    pub size_remaining: u64,
}

pub struct VolumeSpaceView {
    pub file_system: Seq<char>,
    pub size_remaining: u64,
}

impl View for VolumeSpace {
    type V = VolumeSpaceView;

    open spec fn view(&self) -> VolumeSpaceView {
        VolumeSpaceView { file_system: self.file_system@, size_remaining: self.size_remaining }
    }
}

pub const UNKNOWN_FILE_SYSTEM: &'static str = "Inconnu";

impl Record for VolumeSpace {
    /// Any object is a volume; each member that is missing gets its
    /// default.
    open spec fn mapped(tree: JsonTree) -> Option<VolumeSpaceView> {
        if tree is Object {
            Some(
                VolumeSpaceView {
                    file_system: text_or(tree, "FileSystem"@, UNKNOWN_FILE_SYSTEM@),
                    size_remaining: match u64_at(tree, "SizeRemaining"@) {
                        Some(n) => n,
                        None => 0,
                    },
                },
            )
        } else {
            None
        }
    }

    fn map(value: &JsonValue) -> (r: Option<VolumeSpace>) {
        if !value.is_object() {
            return None;
        }
        Some(
            VolumeSpace {
                file_system: text_field_or(value, "FileSystem", UNKNOWN_FILE_SYSTEM),
                size_remaining: match u64_field(value, "SizeRemaining") {
                    Some(n) => n,
                    None => 0,
                },
            },
        )
    }
}

// ---------------------------------------------------------------------------
// Listing the disks
// ---------------------------------------------------------------------------

pub const LIST_DISKS: &'static str =
    "Get-Disk | Select-Object Number, FriendlyName, Size, IsRemovable | ConvertTo-Json -Compress";

pub const LETTERS_OPEN: &'static str = "Get-Partition -DiskNumber ";

pub const LETTERS_CLOSE: &'static str =
    " | Where-Object { $_.DriveLetter -ne $null } | Select-Object DriveLetter | ConvertTo-Json -Compress";

pub const VOLUME_OPEN: &'static str = "Get-Volume -DriveLetter ";

pub const VOLUME_CLOSE: &'static str =
    " | Select-Object FileSystem, SizeRemaining | ConvertTo-Json -Compress";

/// The script that asks for the drive letters of a disk.
pub open spec fn letters_script(disk_number: u32) -> Seq<char> {
    LETTERS_OPEN@ + decimal(disk_number as nat) + LETTERS_CLOSE@
}

/// The script that asks a volume for its file system and its free space.
pub open spec fn volume_script(letter: char) -> Seq<char> {
    VOLUME_OPEN@ + seq![letter] + VOLUME_CLOSE@
}

/// What the listing of the disks is running.
#[derive(Clone, Copy, Debug, PartialEq, Eq, Structural)]
pub enum DiskStage {
    /// The list of disks.
    Disks,
    /// The drive letters of the disk at `position`.
    Letters,
    /// The volume of the first drive letter of the disk at `position`.
    Volume,
}

/// How far the listing of the disks has come.
#[derive(Debug)]
pub struct DiskListing {
    pub stage: DiskStage,
    pub disks: Vec<ReportedDisk>,
    /// The disk that is being completed.
    pub position: usize,
    /// The drive of that disk, where one was found.
    pub mount_point: String,
    /// The disks before `position`, completed.
    pub done: Vec<DiskInfo>,
}

pub struct DiskListingView {
    pub stage: DiskStage,
    pub disks: Seq<ReportedDiskView>,
    pub position: nat,
    pub mount_point: Seq<char>,
    pub done: Seq<DiskView>,
}

impl View for DiskListing {
    type V = DiskListingView;

    open spec fn view(&self) -> DiskListingView {
        DiskListingView {
            stage: self.stage,
            disks: views(self.disks@),
            position: self.position as nat,
            mount_point: self.mount_point@,
            done: views(self.done@),
        }
    }
}

/// What the listing does next.
pub enum DiskAdvance {
    Go(DiskListingView, InvocationView),
    Stop(Result<Seq<DiskView>, ErrorView>),
}

/// The first drive letter among the partitions that a question for
/// letters gave; none where the tool could not be run, failed, or wrote
/// what cannot be read.
pub open spec fn first_letter(outcome: Result<ExecutionResult, ErrorKind>) -> Option<char> {
    match outcome {
        Ok(raw) => if raw.exit_success {
            match typed_output::<PartitionLetter>(utf8_lossy(raw.stdout@)) {
                Some(letters) => first_some(letters),
                None => None,
            }
        } else {
            None
        },
        Err(_) => None,
    }
}

/// The first of `letters` that is there.
pub open spec fn first_some(letters: Seq<Option<char>>) -> Option<char>
    decreases letters.len(),
{
    if letters.len() == 0 {
        None
    } else if letters[0] is Some {
        letters[0]
    } else {
        first_some(letters.drop_first())
    }
}

/// The free space and the file system that a question to a volume gave;
/// nothing where the tool could not be run, failed, or wrote what cannot
/// be read.
pub open spec fn volume_of(outcome: Result<ExecutionResult, ErrorKind>) -> (u64, Seq<char>) {
    match outcome {
        Ok(raw) => if raw.exit_success {
            match typed_output::<VolumeSpace>(utf8_lossy(raw.stdout@)) {
                Some(volumes) => if volumes.len() > 0 {
                    (volumes[0].size_remaining, volumes[0].file_system)
                } else {
                    (0, Seq::empty())
                },
                None => (0, Seq::empty()),
            }
        } else {
            (0, Seq::empty())
        },
        Err(_) => (0, Seq::empty()),
    }
}

/// A reported disk as it is listed with a mount point, free space and a
/// file system.
pub open spec fn disk_entry(
    disk: ReportedDiskView,
    mount_point: Seq<char>,
    available_space: u64,
    file_system: Seq<char>,
) -> DiskView {
    DiskView {
        disk_number: disk.number,
        name: disk.friendly_name,
        mount_point,
        total_space: disk.size,
        available_space,
        file_system,
        is_removable: disk.is_removable,
    }
}

/// The listing with the disk at its position completed.
pub open spec fn with_disk(s: DiskListingView, available_space: u64, file_system: Seq<char>) -> DiskListingView {
    let disk = s.disks[s.position as int];
    DiskListingView {
        position: s.position + 1,
        mount_point: Seq::empty(),
        done: s.done.push(disk_entry(disk, s.mount_point, available_space, file_system)),
        ..s
    }
}

/// What the listing does for the disk at its position: it asks for its
/// drive letters, or ends where no disk is left.
pub open spec fn next_disk(s: DiskListingView) -> DiskAdvance {
    if s.position >= s.disks.len() {
        DiskAdvance::Stop(Ok(s.done))
    } else {
        DiskAdvance::Go(
            DiskListingView { stage: DiskStage::Letters, ..s },
            powershell(letters_script(s.disks[s.position as int].number)),
        )
    }
}

/// The next step of the listing. It fails where the list of disks cannot
/// be had or read. A disk without a drive letter is reported without
/// mount point, free space and file system; so is what a question that
/// fails would have given.
pub open spec fn disk_advance(
    s: DiskListingView,
    outcome: Result<ExecutionResult, ErrorKind>,
) -> DiskAdvance {
    match s.stage {
        DiskStage::Disks => match listed::<ReportedDisk>(outcome) {
            Err(e) => DiskAdvance::Stop(Err(e)),
            Ok(disks) => next_disk(
                DiskListingView {
                    disks,
                    position: 0,
                    mount_point: Seq::empty(),
                    done: Seq::empty(),
                    ..s
                },
            ),
        },
        DiskStage::Letters => if s.position >= s.disks.len() {
            DiskAdvance::Stop(Ok(s.done))
        } else {
            match first_letter(outcome) {
                Some(letter) => DiskAdvance::Go(
                    DiskListingView {
                        stage: DiskStage::Volume,
                        mount_point: seq![letter, ':'],
                        ..s
                    },
                    powershell(volume_script(letter)),
                ),
                None => next_disk(
                    with_disk(DiskListingView { mount_point: Seq::empty(), ..s }, 0, Seq::empty()),
                ),
            }
        },
        DiskStage::Volume => if s.position >= s.disks.len() {
            DiskAdvance::Stop(Ok(s.done))
        } else {
            next_disk(with_disk(s, volume_of(outcome).0, volume_of(outcome).1))
        },
    }
}

/// Whether a step is the one that `advance` describes.
pub open spec fn disk_step_is(
    step: Step<DiskListing, Result<Vec<DiskInfo>, ErrorKind>>,
    advance: DiskAdvance,
) -> bool {
    match advance {
        DiskAdvance::Go(state, command) => {
            &&& step matches Step::Run(listing, invocation)
            &&& listing@ == state
            &&& invocation@ == command
        },
        DiskAdvance::Stop(Ok(items)) => {
            &&& step matches Step::Done(Ok(v))
            &&& views(v@) == items
        },
        DiskAdvance::Stop(Err(e)) => {
            &&& step matches Step::Done(Err(err))
            &&& err@ == e
        },
    }
}

/// The listing before anything was run, and the command that lists the
/// disks.
pub fn list_disks_begin() -> (r: (DiskListing, Invocation))
    ensures
        r.0@.stage == DiskStage::Disks,
        r.1@ == powershell(LIST_DISKS@),
{
    (
        DiskListing {
            stage: DiskStage::Disks,
            disks: Vec::new(),
            position: 0,
            mount_point: String::new(),
            done: Vec::new(),
        },
        Invocation::powershell(String::from_str(LIST_DISKS)),
    )
}

fn ask_next_disk(listing: DiskListing) -> (r: Step<DiskListing, Result<Vec<DiskInfo>, ErrorKind>>)
    ensures
        disk_step_is(r, next_disk(listing@)),
{
    let mut listing = listing;
    if listing.position >= listing.disks.len() {
        Step::Done(Ok(listing.done))
    } else {
        let number = listing.disks[listing.position].number;
        assert(listing@.disks[listing.position as int] == listing.disks@[listing.position as int]@);
        listing.stage = DiskStage::Letters;
        let digits = text_of(&decimal_of(number as u128));
        Step::Run(
            listing,
            Invocation::powershell(
                String::from_str(LETTERS_OPEN).concat(digits.as_str()).concat(LETTERS_CLOSE),
            ),
        )
    }
}

fn complete_disk(listing: &mut DiskListing, available_space: u64, file_system: String)
    requires
        old(listing).position < old(listing).disks.len(),
    ensures
        final(listing)@ == with_disk(old(listing)@, available_space, file_system@),
{
    let ghost s = listing@;
    let disk = &listing.disks[listing.position];
    assert(s.disks[s.position as int] == disk@);
    let info = DiskInfo {
        disk_number: disk.number,
        name: disk.friendly_name.clone(),
        mount_point: listing.mount_point.clone(),
        total_space: disk.size,
        available_space,
        file_system,
        is_removable: disk.is_removable,
    };
    proof {
        lemma_views_push(listing.done@, info);
    }
    listing.done.push(info);
    listing.position = listing.position + 1;
    listing.mount_point = String::new();
}

fn first_of_letters(letters: &Vec<PartitionLetter>) -> (r: Option<char>)
    ensures
        r == first_some(views(letters@)),
{
    let ghost all = views(letters@);
    let mut i: usize = 0;
    assert(all.subrange(0, all.len() as int) == all);
    while i < letters.len()
        invariant
            i <= letters.len(),
            all == views(letters@),
            first_some(all) == first_some(all.subrange(i as int, all.len() as int)),
        decreases letters.len() - i,
    {
        let ghost rest = all.subrange(i as int, all.len() as int);
        assert(rest[0] == letters@[i as int]@);
        assert(rest.drop_first() == all.subrange(i + 1, all.len() as int));
        if letters[i].letter.is_some() {
            return letters[i].letter;
        }
        i += 1;
    }
    assert(all.subrange(all.len() as int, all.len() as int).len() == 0);
    None
}

fn read_first_letter(outcome: &Result<ExecutionResult, ErrorKind>) -> (r: Option<char>)
    ensures
        r == first_letter(*outcome),
{
    match outcome {
        Ok(raw) => if raw.exit_success {
            match read_output::<PartitionLetter>(raw.stdout_text().as_str()) {
                Some(letters) => first_of_letters(&letters),
                None => None,
            }
        } else {
            None
        },
        Err(_) => None,
    }
}

fn read_volume(outcome: &Result<ExecutionResult, ErrorKind>) -> (r: (u64, String))
    ensures
        r.0 == volume_of(*outcome).0,
        r.1@ == volume_of(*outcome).1,
{
    match outcome {
        Ok(raw) => if raw.exit_success {
            match read_output::<VolumeSpace>(raw.stdout_text().as_str()) {
                Some(volumes) => if volumes.len() > 0 {
                    assert(views(volumes@)[0] == volumes@[0]@);
                    (volumes[0].size_remaining, volumes[0].file_system.clone())
                } else {
                    (0, String::new())
                },
                None => (0, String::new()),
            }
        } else {
            (0, String::new())
        },
        Err(_) => (0, String::new()),
    }
}

/// The next step of the listing of the disks, given what the run that the
/// last step asked for came to.
pub fn list_disks_resume(listing: DiskListing, outcome: Result<ExecutionResult, ErrorKind>) -> (r:
    Step<DiskListing, Result<Vec<DiskInfo>, ErrorKind>>)
    ensures
        disk_step_is(r, disk_advance(listing@, outcome)),
{
    let mut listing = listing;
    match listing.stage {
        DiskStage::Disks => match list_records::<ReportedDisk>(outcome) {
            Err(e) => Step::Done(Err(e)),
            Ok(disks) => {
                listing.disks = disks;
                listing.position = 0;
                listing.mount_point = String::new();
                listing.done = Vec::new();
                assert(views(listing.done@) =~= Seq::<DiskView>::empty());
                ask_next_disk(listing)
            },
        },
        DiskStage::Letters => {
            if listing.position >= listing.disks.len() {
                return Step::Done(Ok(listing.done));
            }
            match read_first_letter(&outcome) {
                Some(letter) => {
                    let mut mount: Vec<char> = Vec::new();
                    mount.push(letter);
                    let mut one: Vec<char> = Vec::new();
                    one.push(letter);
                    assert(one@ =~= seq![letter]);
                    mount.push(':');
                    assert(mount@ =~= seq![letter, ':']);
                    listing.mount_point = text_of(&mount);
                    listing.stage = DiskStage::Volume;
                    Step::Run(
                        listing,
                        Invocation::powershell(
                            String::from_str(VOLUME_OPEN).concat(text_of(&one).as_str()).concat(
                                VOLUME_CLOSE,
                            ),
                        ),
                    )
                },
                None => {
                    listing.mount_point = String::new();
                    complete_disk(&mut listing, 0, String::new());
                    ask_next_disk(listing)
                },
            }
        },
        DiskStage::Volume => {
            if listing.position >= listing.disks.len() {
                return Step::Done(Ok(listing.done));
            }
            let (available, file_system) = read_volume(&outcome);
            complete_disk(&mut listing, available, file_system);
            ask_next_disk(listing)
        },
    }
}

// ---------------------------------------------------------------------------
// A whole listing
// ---------------------------------------------------------------------------

/// What a listing comes to when the runs that it asks for are answered by
/// `replies`, in order; `None` where the replies run out before it ends.
pub open spec fn listing_outcome(
    s: DiskListingView,
    replies: Seq<Result<ExecutionResult, ErrorKind>>,
) -> Option<Result<Seq<DiskView>, ErrorView>>
    decreases replies.len(),
{
    if replies.len() == 0 {
        None
    } else {
        match disk_advance(s, replies[0]) {
            DiskAdvance::Go(next, _) => listing_outcome(next, replies.drop_first()),
            DiskAdvance::Stop(result) => Some(result),
        }
    }
}

/// What comes of a step when the runs asked for after it are answered by
/// `replies`.
pub open spec fn followed(
    advance: DiskAdvance,
    replies: Seq<Result<ExecutionResult, ErrorKind>>,
) -> Option<Result<Seq<DiskView>, ErrorView>> {
    match advance {
        DiskAdvance::Go(next, _) => listing_outcome(next, replies),
        DiskAdvance::Stop(result) => Some(result),
    }
}

/// Whether a disk is listed as it was reported: with its number, name,
/// size and removability, and, where it has no mount point, without free
/// space and file system.
pub open spec fn lists(listed: DiskView, reported: ReportedDiskView) -> bool {
    &&& listed.disk_number == reported.number
    &&& listed.name == reported.friendly_name
    &&& listed.total_space == reported.size
    &&& listed.is_removable == reported.is_removable
    &&& listed.mount_point.len() == 0 ==> listed.available_space == 0 && listed.file_system.len()
        == 0
}

/// The entries of the disks from `at` on, where `replies` answer the
/// questions about them. A disk whose question for letters gave none takes
/// one reply, and is listed without mount point, free space and file
/// system. A disk with a letter takes a second reply, about the volume of
/// that letter.
pub open spec fn entries_from(
    disks: Seq<ReportedDiskView>,
    at: nat,
    replies: Seq<Result<ExecutionResult, ErrorKind>>,
) -> Seq<DiskView>
    decreases disks.len() - at,
{
    if at >= disks.len() {
        Seq::empty()
    } else {
        match first_letter(replies[0]) {
            None => seq![disk_entry(disks[at as int], Seq::empty(), 0, Seq::empty())]
                + entries_from(disks, at + 1, replies.drop_first()),
            Some(letter) => seq![
                disk_entry(
                    disks[at as int],
                    seq![letter, ':'],
                    volume_of(replies[1]).0,
                    volume_of(replies[1]).1,
                ),
            ] + entries_from(disks, at + 1, replies.drop_first().drop_first()),
        }
    }
}

proof fn lemma_listing_goes_through(
    s: DiskListingView,
    replies: Seq<Result<ExecutionResult, ErrorKind>>,
)
    requires
        s.position <= s.disks.len(),
        s.done.len() == s.position,
        forall|i: int| 0 <= i < s.position ==> lists(#[trigger] s.done[i], s.disks[i]),
        replies.len() >= 2 * (s.disks.len() - s.position),
    ensures
        followed(next_disk(s), replies) == Some(
            Ok::<Seq<DiskView>, ErrorView>(s.done + entries_from(s.disks, s.position, replies)),
        ),
        followed(next_disk(s), replies) matches Some(Ok(v)) && v.len() == s.disks.len() && forall|
            i: int,
        | 0 <= i < v.len() ==> lists(#[trigger] v[i], s.disks[i]),
    decreases s.disks.len() - s.position,
{
    if s.position >= s.disks.len() {
        assert(s.done + entries_from(s.disks, s.position, replies) =~= s.done);
    }
    if s.position < s.disks.len() {
        let asking = DiskListingView { stage: DiskStage::Letters, ..s };
        assert(next_disk(s) == DiskAdvance::Go(
            asking,
            powershell(letters_script(s.disks[s.position as int].number)),
        ));
        let rest = replies.drop_first();
        match first_letter(replies[0]) {
            None => {
                let after = with_disk(
                    DiskListingView { mount_point: Seq::empty(), ..asking },
                    0,
                    Seq::empty(),
                );
                assert(disk_advance(asking, replies[0]) == next_disk(after));
                assert forall|i: int| 0 <= i < after.position implies lists(
                    #[trigger] after.done[i],
                    after.disks[i],
                ) by {
                    if i < s.position {
                        assert(after.done[i] == s.done[i]);
                    }
                }
                lemma_listing_goes_through(after, rest);
                assert(listing_outcome(asking, replies) == followed(next_disk(after), rest));
                assert(after.done + entries_from(s.disks, after.position, rest) =~= s.done
                    + entries_from(s.disks, s.position, replies));
            },
            Some(letter) => {
                let on_volume = DiskListingView {
                    stage: DiskStage::Volume,
                    mount_point: seq![letter, ':'],
                    ..asking
                };
                assert(disk_advance(asking, replies[0]) == DiskAdvance::Go(
                    on_volume,
                    powershell(volume_script(letter)),
                ));
                let later = rest.drop_first();
                let after = with_disk(on_volume, volume_of(rest[0]).0, volume_of(rest[0]).1);
                assert(disk_advance(on_volume, rest[0]) == next_disk(after));
                assert forall|i: int| 0 <= i < after.position implies lists(
                    #[trigger] after.done[i],
                    after.disks[i],
                ) by {
                    if i < s.position {
                        assert(after.done[i] == s.done[i]);
                    } else {
                        assert(after.done[i].mount_point.len() == 2);
                    }
                }
                lemma_listing_goes_through(after, later);
                assert(listing_outcome(on_volume, rest) == followed(next_disk(after), later));
                assert(listing_outcome(asking, replies) == listing_outcome(on_volume, rest));
                assert(after.done + entries_from(s.disks, after.position, later) =~= s.done
                    + entries_from(s.disks, s.position, replies));
            },
        }
    }
}

/// A listing lists every disk that was reported, in order and as it was
/// reported, whatever the questions about letters and volumes come to:
/// where the list of disks can be had and read, the listing ends well once
/// its questions are answered, with one entry for each disk, and each
/// entry is what the replies about that disk make of it.
pub proof fn law_every_reported_disk_is_listed(
    s: DiskListingView,
    replies: Seq<Result<ExecutionResult, ErrorKind>>,
    disks: Seq<ReportedDiskView>,
)
    requires
        s.stage == DiskStage::Disks,
        replies.len() > 2 * disks.len(),
        listed::<ReportedDisk>(replies[0]) == Ok::<Seq<ReportedDiskView>, ErrorView>(disks),
    ensures
        listing_outcome(s, replies) == Some(
            Ok::<Seq<DiskView>, ErrorView>(entries_from(disks, 0, replies.drop_first())),
        ),
        listing_outcome(s, replies) matches Some(Ok(v)) && v.len() == disks.len() && forall|
            i: int,
        | 0 <= i < v.len() ==> lists(#[trigger] v[i], disks[i]),
{
    let begun = DiskListingView {
        disks,
        position: 0,
        mount_point: Seq::empty(),
        done: Seq::empty(),
        ..s
    };
    assert(disk_advance(s, replies[0]) == next_disk(begun));
    lemma_listing_goes_through(begun, replies.drop_first());
    assert(listing_outcome(s, replies) == followed(next_disk(begun), replies.drop_first()));
    assert(begun.done + entries_from(disks, 0, replies.drop_first()) =~= entries_from(
        disks,
        0,
        replies.drop_first(),
    ));
}

/// A listing fails exactly as the list of disks fails: nothing else can
/// make it fail.
pub proof fn law_listing_fails_with_the_disk_list(
    s: DiskListingView,
    replies: Seq<Result<ExecutionResult, ErrorKind>>,
    e: ErrorView,
)
    requires
        s.stage == DiskStage::Disks,
        replies.len() > 0,
        listed::<ReportedDisk>(replies[0]) == Err::<Seq<ReportedDiskView>, ErrorView>(e),
    ensures
        listing_outcome(s, replies) == Some(Err::<Seq<DiskView>, ErrorView>(e)),
{
}

// ---------------------------------------------------------------------------
// Partitions
// ---------------------------------------------------------------------------

pub const PARTITIONS_OPEN: &'static str = "Get-Partition -DiskNumber ";

pub const PARTITIONS_CLOSE: &'static str =
    " | Select-Object PartitionNumber, DriveLetter, Size, Type | ConvertTo-Json -Depth 3 -Compress";

/// The command that lists the partitions of a disk.
pub fn get_disk_partitions_command(disk_number: u32) -> (r: Invocation)
    ensures
        r@ == powershell(PARTITIONS_OPEN@ + decimal(disk_number as nat) + PARTITIONS_CLOSE@),
{
    let digits = text_of(&decimal_of(disk_number as u128));
    Invocation::powershell(
        String::from_str(PARTITIONS_OPEN).concat(digits.as_str()).concat(PARTITIONS_CLOSE),
    )
}

/// The partitions that the command gave.
pub fn get_disk_partitions_response(outcome: Result<ExecutionResult, ErrorKind>) -> (r: Result<
    Vec<PartitionInfo>,
    ErrorKind,
>)
    ensures
        yields_all(r, listed::<PartitionInfo>(outcome)),
{
    list_records::<PartitionInfo>(outcome)
}

// ---------------------------------------------------------------------------
// The recycle bin
// ---------------------------------------------------------------------------

pub const MEASURE_RECYCLE_BIN: &'static str =
    "try { ($Shell = New-Object -ComObject Shell.Application).NameSpace(0xa).Items() | Measure-Object -Property Size -Sum | Select-Object -ExpandProperty Sum } catch { 0 }";

pub const CLEAR_RECYCLE_BIN: &'static str = "Clear-RecycleBin -Force";

/// The command that measures the recycle bin.
pub fn analyze_recycle_bin_command() -> (r: Invocation)
    ensures
        r@ == powershell(MEASURE_RECYCLE_BIN@),
{
    Invocation::powershell(String::from_str(MEASURE_RECYCLE_BIN))
}

/// The size that a measurement names: the number that the output holds,
/// or zero where it holds no number of 64 bits.
pub open spec fn measured_size(out: Seq<char>) -> u64 {
    match parsed_unsigned(trimmed(out), u64::MAX as nat) {
        Some(n) => n as u64,
        None => 0,
    }
}

/// The size of the recycle bin in bytes that the command gave.
pub open spec fn recycle_bin_size(outcome: Result<ExecutionResult, ErrorKind>) -> Result<
    u64,
    ErrorView,
> {
    match outcome {
        Ok(raw) => if raw.exit_success {
            Ok(measured_size(utf8_lossy(raw.stdout@)))
        } else {
            Err(ErrorView::ExternalToolFailed { stderr: utf8_lossy(raw.stderr@) })
        },
        Err(e) => Err(e@),
    }
}

pub fn analyze_recycle_bin_response(outcome: Result<ExecutionResult, ErrorKind>) -> (r: Result<
    u64,
    ErrorKind,
>)
    ensures
        match r {
            Ok(n) => recycle_bin_size(outcome) == Ok::<u64, ErrorView>(n),
            Err(e) => recycle_bin_size(outcome) == Err::<u64, ErrorView>(e@),
        },
{
    match outcome {
        Ok(raw) => if raw.exit_success {
            let out = trim(&chars_of(raw.stdout_text().as_str()));
            match parse_unsigned(&out, 0xFFFF_FFFF_FFFF_FFFF) {
                Some(n) => Ok(n),
                None => Ok(0),
            }
        } else {
            Err(ErrorKind::ExternalToolFailed { stderr: raw.stderr_text() })
        },
        Err(e) => Err(e),
    }
}

/// The command that empties the recycle bin.
pub fn clear_recycle_bin_command() -> (r: Invocation)
    ensures
        r@ == powershell(CLEAR_RECYCLE_BIN@),
{
    Invocation::powershell(String::from_str(CLEAR_RECYCLE_BIN))
}

// ---------------------------------------------------------------------------
// Optimizing and formatting a volume
// ---------------------------------------------------------------------------

pub const OPTIMIZE_OPEN: &'static str = "Optimize-Volume -DriveLetter ";

pub const OPTIMIZE_CLOSE: &'static str = " -Verbose";

pub const FORMAT_OPEN: &'static str = "Format-Volume -DriveLetter ";

pub const FORMAT_SYSTEM: &'static str = " -FileSystem ";

pub const FORMAT_CLOSE: &'static str = " -Force";

pub const BAD_LETTER: &'static str = "Lettre de lecteur invalide";

pub const BAD_FILE_SYSTEM: &'static str =
    "Système de fichiers non supporté (NTFS, FAT32, EXFAT, REFS)";

pub const DEFRAG_REPLACED: &'static str =
    "run_defrag (utilisez optimize_volume avec la lettre de lecteur)";

/// The command that optimizes a volume; a drive that is not one letter,
/// with or without a colon, is refused.
pub fn optimize_volume_command(drive_letter: &str) -> (r: Result<Invocation, ErrorKind>)
    ensures
        match r {
            Ok(invocation) => drive_letter_of(drive_letter@) matches Some(letter) && invocation@
                == powershell(OPTIMIZE_OPEN@ + seq![letter] + OPTIMIZE_CLOSE@),
            Err(e) => drive_letter_of(drive_letter@) is None && e@ == (ErrorView::InvalidArgument {
                detail: BAD_LETTER@,
            }),
        },
{
    match parse_drive_letter(drive_letter) {
        Some(letter) => {
            let mut one: Vec<char> = Vec::new();
            one.push(letter);
            assert(one@ =~= seq![letter]);
            Ok(
                Invocation::powershell(
                    String::from_str(OPTIMIZE_OPEN).concat(text_of(&one).as_str()).concat(
                        OPTIMIZE_CLOSE,
                    ),
                ),
            )
        },
        None => Err(ErrorKind::invalid_argument(BAD_LETTER)),
    }
}

/// The script that formats a volume.
pub open spec fn format_script(letter: char, file_system: Seq<char>) -> Seq<char> {
    FORMAT_OPEN@ + seq![letter] + FORMAT_SYSTEM@ + file_system + FORMAT_CLOSE@
}

/// The command that formats a volume. A file system that is none of the
/// four supported ones is refused, and so is a drive that is not one
/// letter, with or without a colon; nothing is run then.
pub fn format_disk_command(drive_letter: &str, file_system: &str) -> (r: Result<
    Invocation,
    ErrorKind,
>)
    ensures
        match r {
            Ok(invocation) => {
                &&& file_system_of(file_system@) matches Some(name)
                &&& drive_letter_of(drive_letter@) matches Some(letter)
                &&& invocation@ == powershell(format_script(letter, name))
            },
            Err(e) => {
                ||| file_system_of(file_system@) is None && e@ == (ErrorView::InvalidArgument {
                    detail: BAD_FILE_SYSTEM@,
                })
                ||| file_system_of(file_system@) is Some && drive_letter_of(drive_letter@) is None
                    && e@ == (ErrorView::InvalidArgument { detail: BAD_LETTER@ })
            },
        },
{
    let name = match parse_file_system(file_system) {
        Some(name) => name,
        None => {
            return Err(ErrorKind::invalid_argument(BAD_FILE_SYSTEM));
        },
    };
    match parse_drive_letter(drive_letter) {
        Some(letter) => {
            let mut one: Vec<char> = Vec::new();
            one.push(letter);
            assert(one@ =~= seq![letter]);
            Ok(
                Invocation::powershell(
                    String::from_str(FORMAT_OPEN).concat(text_of(&one).as_str()).concat(
                        FORMAT_SYSTEM,
                    ).concat(name.as_str()).concat(FORMAT_CLOSE),
                ),
            )
        },
        None => Err(ErrorKind::invalid_argument(BAD_LETTER)),
    }
}

/// What emptying the recycle bin, optimizing or formatting came to.
pub fn disk_action_response(outcome: Result<ExecutionResult, ErrorKind>) -> (r: Result<
    (),
    ErrorKind,
>)
    ensures
        yields_unit(r, acknowledged(outcome)),
{
    acknowledge(outcome)
}

/// Defragmenting by disk name has no command: a volume is optimized by
/// its drive letter instead.
pub fn run_defrag(_disk_name: &str) -> (r: Result<(), ErrorKind>)
    ensures
        r matches Err(e) && e@ == (ErrorView::UnsupportedTemplate { operation: DEFRAG_REPLACED@ }),
{
    Err(ErrorKind::UnsupportedTemplate { operation: String::from_str(DEFRAG_REPLACED) })
}

} // verus!
