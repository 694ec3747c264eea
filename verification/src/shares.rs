//! Network shares: mapped drives and the network locations that the
//! machine knows of, gathered from several sources and united.

use vstd::prelude::*;
use vstd::string::*;
use crate::command::{command_prompt, native, powershell, Invocation, InvocationView};
use crate::error::{ErrorKind, ErrorView};
use crate::execution::{utf8_lossy, ExecutionResult};
use crate::fallback::{
    count_key, distinct, holds_key, law_count_of_distinct, law_merge_covers,
    law_merge_keeps_distinct, law_merge_keeps_first, merged,
};
use crate::flow::Step;
use crate::json::{JsonTree, JsonValue};
use crate::mapper::{
    acknowledge, acknowledged, first_text_at, first_text_field, integer_at, integer_field,
    read_output, text_at, text_field, typed_output, yields_unit, CodeName, CodeView, Record,
};
use crate::quoting::{double_quoted, quote_double};
use crate::text::{
    chars_of, contains, decimal, decimal_of, ends_with, includes, has_prefix, has_suffix, lines,
    lines_of, same_text, split, split_on, starts_with, text_of, views, words, words_of,
};
use crate::validate::{check_share_path, is_share_path, mapped_drive_of, parse_mapped_drive};

verus! {

// ---------------------------------------------------------------------------
// Coded fields of a share
// ---------------------------------------------------------------------------

pub open spec fn share_state_of(code: int) -> CodeView {
    if code == 0 {
        CodeView::Known("Offline"@)
    } else if code == 1 {
        CodeView::Known("Online"@)
    } else if code == 2 {
        CodeView::Known("Paused"@)
    } else {
        CodeView::Unknown(code)
    }
}

pub const SHARE_STATE_PREFIX: &'static str = "État ";

pub const SHARE_TYPE_PREFIX: &'static str = "Type ";

pub const NO_SUFFIX: &'static str = "";

/// The readable state of a share: its documented name, or its code after
/// the word for "state".
pub fn parse_share_state(state_code: u32) -> (r: String)
    ensures
        r@ == share_state_of(state_code as int).label(SHARE_STATE_PREFIX@, NO_SUFFIX@),
{
    let name = if state_code == 0 {
        CodeName::Known("Offline")
    } else if state_code == 1 {
        CodeName::Known("Online")
    } else if state_code == 2 {
        CodeName::Known("Paused")
    } else {
        CodeName::Unknown(state_code as i128)
    };
    name.label(SHARE_STATE_PREFIX, NO_SUFFIX)
}

pub open spec fn share_type_of(code: int) -> CodeView {
    if code == 0 {
        CodeView::Known("Disk"@)
    } else if code == 1 {
        CodeView::Known("Print"@)
    } else if code == 2 {
        CodeView::Known("Device"@)
    } else if code == 3 {
        CodeView::Known("IPC"@)
    } else {
        CodeView::Unknown(code)
    }
}

/// The readable type of a share: its documented name, or its code after
/// the word "Type".
pub fn parse_share_type(type_code: u32) -> (r: String)
    ensures
        r@ == share_type_of(type_code as int).label(SHARE_TYPE_PREFIX@, NO_SUFFIX@),
{
    let name = if type_code == 0 {
        CodeName::Known("Disk")
    } else if type_code == 1 {
        CodeName::Known("Print")
    } else if type_code == 2 {
        CodeName::Known("Device")
    } else if type_code == 3 {
        CodeName::Known("IPC")
    } else {
        CodeName::Unknown(type_code as i128)
    };
    name.label(SHARE_TYPE_PREFIX, NO_SUFFIX)
}

// ---------------------------------------------------------------------------
// Shares
// ---------------------------------------------------------------------------

#[derive(Debug)]
pub struct ShareInfo {
    /// The drive letter with its colon, or the name of the location.
    pub name: String,
    /// The network path.
    pub path: String,
    pub description: String,
    pub state: String,
    pub share_type: String,
    pub current_users: u32,
}

pub struct ShareView {
    pub name: Seq<char>,
    pub path: Seq<char>,
    pub description: Seq<char>,
    pub state: Seq<char>,
    pub share_type: Seq<char>,
    pub current_users: u32,
}

impl View for ShareInfo {
    type V = ShareView;

    open spec fn view(&self) -> ShareView {
        ShareView {
            name: self.name@,
            path: self.path@,
            description: self.description@,
            state: self.state@,
            share_type: self.share_type@,
            current_users: self.current_users,
        }
    }
}

impl ShareInfo {
    pub fn copy(&self) -> (r: ShareInfo)
        ensures
            r@ == self@,
    {
        ShareInfo {
            name: self.name.clone(),
            path: self.path.clone(),
            description: self.description.clone(),
            state: self.state.clone(),
            share_type: self.share_type.clone(),
            current_users: self.current_users,
        }
    }
}

/// The path of a share: what shares are united by.
pub open spec fn path_key() -> spec_fn(ShareView) -> Seq<char> {
    |s: ShareView| s.path
}

fn holds_path(found: &Vec<ShareInfo>, path: &str) -> (r: bool)
    ensures
        r == holds_key(views(found@), path_key(), path@),
{
    let mut i: usize = 0;
    while i < found.len()
        invariant
            i <= found.len(),
            forall|k: int| 0 <= k < i ==> path_key()(#[trigger] views(found@)[k]) != path@,
        decreases found.len() - i,
    {
        assert(views(found@)[i as int] == found@[i as int]@);
        if same_text(found[i].path.as_str(), path) {
            return true;
        }
        i += 1;
    }
    false
}

/// Adds to `found`, in order, each of `incoming` whose path is not there
/// yet.
pub fn merge_shares(found: &mut Vec<ShareInfo>, incoming: &Vec<ShareInfo>)
    ensures
        views(final(found)@) == merged(views(old(found)@), views(incoming@), path_key()),
{
    let ghost start = views(found@);
    let ghost all = views(incoming@);
    let mut i: usize = 0;
    while i < incoming.len()
        invariant
            i <= incoming.len(),
            all == views(incoming@),
            views(found@) == merged(start, all.subrange(0, i as int), path_key()),
        decreases incoming.len() - i,
    {
        proof {
            let next = all.subrange(0, i + 1);
            assert(next.drop_last() == all.subrange(0, i as int));
            assert(next.last() == incoming@[i as int]@);
        }
        let item = &incoming[i];
        if !holds_path(found, item.path.as_str()) {
            let ghost before = views(found@);
            found.push(item.copy());
            assert(views(found@) =~= before.push(item@));
        }
        i += 1;
    }
    assert(all.subrange(0, incoming.len() as int) == all);
}

// ---------------------------------------------------------------------------
// The server of a path
// ---------------------------------------------------------------------------

pub const UNKNOWN_SERVER: &'static str = "serveur inconnu";

pub const SOME_SERVER: &'static str = "serveur réseau";

/// The server that a network path names: what stands between its second
/// and its third backslash; `default` where it has no two backslashes.
pub open spec fn server_of(path: Seq<char>, default: Seq<char>) -> Seq<char> {
    let pieces = split(path, '\\');
    if pieces.len() > 2 {
        pieces[2]
    } else {
        default
    }
}

pub fn server_name(path: &str, default: &str) -> (r: String)
    ensures
        r@ == server_of(path@, default@),
{
    let pieces = split_on(&chars_of(path), '\\');
    if pieces.len() > 2 {
        assert(views(pieces@)[2] == pieces@[2]@);
        text_of(&pieces[2])
    } else {
        String::from_str(default)
    }
}

// ---------------------------------------------------------------------------
// The list of mapped drives that `net use` prints
// ---------------------------------------------------------------------------

pub const NETWORK_PROVIDER: &'static str = "Microsoft Windows Network";

pub const COMPLETED_NOTICE: &'static str = "The command completed successfully";

pub const DRIVE_ON: &'static str = "Lecteur réseau sur ";

pub const ONLINE: &'static str = "Online";

pub const NETWORK_DRIVE: &'static str = "Network Drive";

pub const COLON: &'static str = ":";

pub const TWO_BACKSLASHES: &'static str = "\\\\";

/// The first of `ws` that ends with `pat`.
pub open spec fn first_ending(ws: Seq<Seq<char>>, pat: Seq<char>) -> Option<Seq<char>>
    decreases ws.len(),
{
    if ws.len() == 0 {
        None
    } else if ends_with(ws[0], pat) {
        Some(ws[0])
    } else {
        first_ending(ws.drop_first(), pat)
    }
}

/// The first of `ws` that starts with `pat`.
pub open spec fn first_starting(ws: Seq<Seq<char>>, pat: Seq<char>) -> Option<Seq<char>>
    decreases ws.len(),
{
    if ws.len() == 0 {
        None
    } else if starts_with(ws[0], pat) {
        Some(ws[0])
    } else {
        first_starting(ws.drop_first(), pat)
    }
}

fn find_ending(ws: &Vec<Vec<char>>, pat: &Vec<char>) -> (r: Option<usize>)
    ensures
        match r {
            Some(i) => i < ws.len() && first_ending(views(ws@), pat@) == Some(ws@[i as int]@),
            None => first_ending(views(ws@), pat@) is None,
        },
{
    let ghost all = views(ws@);
    let mut i: usize = 0;
    assert(all.subrange(0, all.len() as int) == all);
    while i < ws.len()
        invariant
            i <= ws.len(),
            all == views(ws@),
            first_ending(all, pat@) == first_ending(all.subrange(i as int, all.len() as int), pat@),
        decreases ws.len() - i,
    {
        let ghost rest = all.subrange(i as int, all.len() as int);
        assert(rest[0] == ws@[i as int]@);
        assert(rest.drop_first() == all.subrange(i + 1, all.len() as int));
        if has_suffix(&ws[i], pat) {
            return Some(i);
        }
        i += 1;
    }
    assert(all.subrange(all.len() as int, all.len() as int).len() == 0);
    None
}

fn find_starting(ws: &Vec<Vec<char>>, pat: &Vec<char>) -> (r: Option<usize>)
    ensures
        match r {
            Some(i) => i < ws.len() && first_starting(views(ws@), pat@) == Some(ws@[i as int]@),
            None => first_starting(views(ws@), pat@) is None,
        },
{
    let ghost all = views(ws@);
    let mut i: usize = 0;
    assert(all.subrange(0, all.len() as int) == all);
    while i < ws.len()
        invariant
            i <= ws.len(),
            all == views(ws@),
            first_starting(all, pat@) == first_starting(
                all.subrange(i as int, all.len() as int),
                pat@,
            ),
        decreases ws.len() - i,
    {
        let ghost rest = all.subrange(i as int, all.len() as int);
        assert(rest[0] == ws@[i as int]@);
        assert(rest.drop_first() == all.subrange(i + 1, all.len() as int));
        if has_prefix(&ws[i], pat) {
            return Some(i);
        }
        i += 1;
    }
    assert(all.subrange(all.len() as int, all.len() as int).len() == 0);
    None
}

/// The mapped drive that one line of the list stands for: the line names
/// the network provider, is not the closing notice, and holds at least
/// three words, one of which ends with a colon (the drive) and one of which
/// starts with two backslashes (the path).
pub open spec fn net_use_share(line: Seq<char>) -> Option<ShareView> {
    let ws = words(line);
    if contains(line, NETWORK_PROVIDER@) && !contains(line, COMPLETED_NOTICE@) && ws.len() >= 3 {
        match (first_ending(ws, COLON@), first_starting(ws, TWO_BACKSLASHES@)) {
            (Some(drive), Some(path)) => Some(
                ShareView {
                    name: drive,
                    path,
                    description: DRIVE_ON@ + server_of(path, UNKNOWN_SERVER@),
                    state: ONLINE@,
                    share_type: NETWORK_DRIVE@,
                    current_users: 1,
                },
            ),
            _ => None,
        }
    } else {
        None
    }
}

/// The mapped drives among the given lines, in order.
pub open spec fn net_use_shares_of(ls: Seq<Seq<char>>) -> Seq<ShareView>
    decreases ls.len(),
{
    if ls.len() == 0 {
        Seq::empty()
    } else {
        let init = net_use_shares_of(ls.drop_last());
        match net_use_share(ls.last()) {
            Some(share) => init.push(share),
            None => init,
        }
    }
}

/// The mapped drives that the output of `net use` lists.
pub open spec fn net_use_shares(output: Seq<char>) -> Seq<ShareView> {
    net_use_shares_of(lines(output))
}

fn share_of_line(line: &Vec<char>) -> (r: Option<ShareInfo>)
    ensures
        match r {
            Some(share) => net_use_share(line@) == Some(share@),
            None => net_use_share(line@) is None,
        },
{
    if !includes(line, &chars_of(NETWORK_PROVIDER)) || includes(line, &chars_of(COMPLETED_NOTICE)) {
        return None;
    }
    let ws = words_of(line);
    if ws.len() < 3 {
        return None;
    }
    let drive = find_ending(&ws, &chars_of(COLON))?;
    let path = find_starting(&ws, &chars_of(TWO_BACKSLASHES))?;
    let path_text = text_of(&ws[path]);
    let server = server_name(path_text.as_str(), UNKNOWN_SERVER);
    Some(
        ShareInfo {
            name: text_of(&ws[drive]),
            path: path_text,
            description: String::from_str(DRIVE_ON).concat(server.as_str()),
            state: String::from_str(ONLINE),
            share_type: String::from_str(NETWORK_DRIVE),
            current_users: 1,
        },
    )
}

/// The mapped drives that the output of `net use` lists.
pub fn shares_from_net_use(output: &str) -> (r: Vec<ShareInfo>)
    ensures
        views(r@) == net_use_shares(output@),
{
    let ls = lines_of(&chars_of(output));
    let ghost all = views(ls@);
    let mut r: Vec<ShareInfo> = Vec::new();
    let mut i: usize = 0;
    assert(views(r@) =~= Seq::<ShareView>::empty());
    while i < ls.len()
        invariant
            i <= ls.len(),
            all == views(ls@),
            views(r@) == net_use_shares_of(all.subrange(0, i as int)),
        decreases ls.len() - i,
    {
        proof {
            let next = all.subrange(0, i + 1);
            assert(next.drop_last() == all.subrange(0, i as int));
            assert(next.last() == ls@[i as int]@);
        }
        match share_of_line(&ls[i]) {
            Some(share) => {
                let ghost before = views(r@);
                r.push(share);
                assert(views(r@) =~= before.push(r@[r.len() - 1]@));
            },
            None => {},
        }
        i += 1;
    }
    assert(all.subrange(0, ls.len() as int) == all);
    r
}

// ---------------------------------------------------------------------------
// Drives and places as the scripts report them
// ---------------------------------------------------------------------------

/// A drive as the scripts that list drives report it.
#[derive(Debug)]
pub struct ReportedDrive {
    pub device_id: String,
    pub provider_name: Option<String>,
    pub volume_name: Option<String>,
    pub drive_type: Option<u32>,
}

pub struct ReportedDriveView {
    pub device_id: Seq<char>,
    pub provider_name: Option<Seq<char>>,
    pub volume_name: Option<Seq<char>>,
    pub drive_type: Option<u32>,
}

impl View for ReportedDrive {
    type V = ReportedDriveView;

    open spec fn view(&self) -> ReportedDriveView {
        ReportedDriveView {
            device_id: self.device_id@,
            provider_name: match self.provider_name {
                Some(t) => Some(t@),
                None => None,
            },
            volume_name: match self.volume_name {
                Some(t) => Some(t@),
                None => None,
            },
            drive_type: self.drive_type,
        }
    }
}

/// The integer of the member `name` as 32 bits without sign.
pub open spec fn u32_at(tree: JsonTree, name: Seq<char>) -> Option<u32> {
    match integer_at(tree, name, 0, u32::MAX as int) {
        Some(i) => Some(i as u32),
        None => None,
    }
}

pub fn u32_field(value: &JsonValue, name: &str) -> (r: Option<u32>)
    ensures
        r == u32_at(value@, name@),
{
    match integer_field(value, name, 0, 0xFFFF_FFFF) {
        Some(i) => Some(i as u32),
        None => None,
    }
}

impl Record for ReportedDrive {
    /// A drive needs its device identifier, under either spelling of the
    /// member's name.
    open spec fn mapped(tree: JsonTree) -> Option<ReportedDriveView> {
        match first_text_at(tree, seq!["DeviceID"@, "DeviceId"@]) {
            Some(device_id) => Some(
                ReportedDriveView {
                    device_id,
                    provider_name: text_at(tree, "ProviderName"@),
                    volume_name: text_at(tree, "VolumeName"@),
                    drive_type: u32_at(tree, "DriveType"@),
                },
            ),
            None => None,
        }
    }

    fn map(value: &JsonValue) -> (r: Option<ReportedDrive>) {
        let names = ["DeviceID", "DeviceId"];
        assert(views(names@) =~= seq!["DeviceID"@, "DeviceId"@]);
        let device_id = first_text_field(value, &names)?;
        Some(
            ReportedDrive {
                device_id,
                provider_name: text_field(value, "ProviderName"),
                volume_name: text_field(value, "VolumeName"),
                drive_type: u32_field(value, "DriveType"),
            },
        )
    }
}

/// A network place as the scripts that list places report it.
#[derive(Debug)]
pub struct ReportedPlace {
    pub name: String,
    pub path: String,
    pub kind: String,
    pub description: Option<String>,
}

pub struct ReportedPlaceView {
    pub name: Seq<char>,
    pub path: Seq<char>,
    pub kind: Seq<char>,
    pub description: Option<Seq<char>>,
}

impl View for ReportedPlace {
    type V = ReportedPlaceView;

    open spec fn view(&self) -> ReportedPlaceView {
        ReportedPlaceView {
            name: self.name@,
            path: self.path@,
            kind: self.kind@,
            description: match self.description {
                Some(t) => Some(t@),
                None => None,
            },
        }
    }
}

impl Record for ReportedPlace {
    /// A place needs its name, its path and its type.
    open spec fn mapped(tree: JsonTree) -> Option<ReportedPlaceView> {
        match (text_at(tree, "Name"@), text_at(tree, "Path"@), text_at(tree, "Type"@)) {
            (Some(name), Some(path), Some(kind)) => Some(
                ReportedPlaceView { name, path, kind, description: text_at(tree, "Description"@) },
            ),
            _ => None,
        }
    }

    fn map(value: &JsonValue) -> (r: Option<ReportedPlace>) {
        let name = text_field(value, "Name")?;
        let path = text_field(value, "Path")?;
        let kind = text_field(value, "Type")?;
        Some(ReportedPlace { name, path, kind, description: text_field(value, "Description") })
    }
}

// ---------------------------------------------------------------------------
// The strategies
// ---------------------------------------------------------------------------

/// The number of sources that are asked for shares.
pub const SHARE_STRATEGIES: usize = 8;

pub const NET: &'static str = "net";

pub const NET_USE: &'static str = "use";

/// Lists the logical disks that are network drives.
pub const LOGICAL_DISKS_SCRIPT: &'static str = r#"
    Get-WmiObject -Class Win32_LogicalDisk | Where-Object { $_.DriveType -eq 4 } | Select-Object DeviceID, ProviderName, VolumeName, Size, FreeSpace | ConvertTo-Json -Compress
    "#;

/// Probes the drive letters for network locations that the file explorer shows.
pub const EXPLORER_DRIVES_SCRIPT: &'static str = r#"
    try {
        $networkDrives = @()
        
        # Vérifier les lettres de lecteur, de Y à F
        $driveLetters = @("Y", "Z", "X", "W", "V", "U", "T", "S", "R", "Q", "P", "O", "N", "M", "L", "K", "J", "I", "H", "G", "F")
        
        foreach ($letter in $driveLetters) {
            $drivePath = "${letter}:"
            if (Test-Path $drivePath) {
                try {
                    # Obtenir les informations sur le lecteur
                    $driveInfo = Get-WmiObject -Class Win32_LogicalDisk -Filter "DeviceID='$drivePath'"
                    $volume = Get-Volume -DriveLetter $letter -ErrorAction SilentlyContinue
                    
                    # Vérifier si c'est un lecteur réseau en testant l'accès réseau
                    $isNetwork = $false
                    $providerName = ""
                    $volumeName = ""
                    
                    if ($driveInfo) {
                        if ($driveInfo.DriveType -eq 4) {
                            $isNetwork = $true
                            $providerName = $driveInfo.ProviderName
                        } elseif ($driveInfo.DriveType -eq 3) {
                            # Même si DriveType=3, vérifier si c'est quand même un lecteur réseau
                            # Certains emplacements réseau apparaissent comme DriveType=3
                            $driveRoot = Get-Item $drivePath -Force -ErrorAction SilentlyContinue
                            if ($driveRoot -and $driveRoot.Target) {
                                foreach ($target in $driveRoot.Target) {
                                    if ($target.StartsWith("\\")) {
                                        $isNetwork = $true
                                        $providerName = $target
                                        break
                                    }
                                }
                            }
                            
                            # Autre vérification : essayer fsutil
                            try {
                                $fsutilResult = fsutil volume diskfree $drivePath 2>$null
                                if ($fsutilResult -and $fsutilResult.ToString().Contains("remote")) {
                                    $isNetwork = $true
                                }
                            } catch {}
                        }
                        
                        if ($volume) {
                            $volumeName = $volume.FileSystemLabel
                            if (-not $volumeName) { $volumeName = "" }
                        }
                        
                        # Si c'est un lecteur réseau, l'ajouter
                        if ($isNetwork) {
                            $freeSpace = if ($driveInfo.FreeSpace) { $driveInfo.FreeSpace } else { 0 }
                            $totalSize = if ($driveInfo.Size) { $driveInfo.Size } else { 0 }
                            
                            $networkDrives += [PSCustomObject]@{
                                DeviceID = $drivePath
                                ProviderName = $providerName
                                VolumeName = $volumeName
                                FreeSpace = $freeSpace
                                TotalSize = $totalSize
                                DriveType = $driveInfo.DriveType
                            }
                        }
                    }
                } catch {
                    # Ignorer les erreurs pour ce lecteur
                }
            }
        }
        
        $networkDrives | ConvertTo-Json -Compress
    } catch {
        Write-Output ""
    }
    "#;

/// Lists the network places of the registry and of the favourites.
pub const REGISTRY_PLACES_SCRIPT: &'static str = r#"
    try {
        $networkPlaces = @()
        
        # Chercher dans les emplacements réseau de l'utilisateur actuel
        $regPath = "HKCU:\Software\Microsoft\Windows\CurrentVersion\Explorer\Desktop\NameSpace"
        if (Test-Path $regPath) {
            Get-ChildItem $regPath | ForEach-Object {
                $clsid = $_.PSChildName
                $clsidPath = "HKCR\CLSID\$clsid"
                if (Test-Path $clsidPath) {
                    $name = (Get-ItemProperty -Path $clsidPath -Name "(default)" -ErrorAction SilentlyContinue)."(default)"
                    if ($name -and $name.StartsWith("\\")) {
                        $networkPlaces += [PSCustomObject]@{
                            Name = "Réseau-$($networkPlaces.Count + 1)"
                            Path = $name
                            Type = "Network Location"
                        }
                    }
                }
            }
        }
        
        # Chercher dans les favoris réseau
        $favoritesPath = [Environment]::GetFolderPath("Favorites")
        if (Test-Path $favoritesPath) {
            Get-ChildItem -Path $favoritesPath -Recurse -Include "*.lnk" | ForEach-Object {
                try {
                    $shell = New-Object -ComObject WScript.Shell
                    $shortcut = $shell.CreateShortcut($_.FullName)
                    if ($shortcut.TargetPath.StartsWith("\\")) {
                        $networkPlaces += [PSCustomObject]@{
                            Name = $_.BaseName
                            Path = $shortcut.TargetPath
                            Type = "Network Shortcut"
                        }
                    }
                } catch {}
            }
        }
        
        $networkPlaces | ConvertTo-Json -Compress
    } catch {
        Write-Output ""
    }
    "#;

/// Lists the network paths among the recently typed or opened ones.
pub const RECENT_PLACES_SCRIPT: &'static str = r#"
    try {
        $recentNetworks = @()
        
        # Chercher dans les emplacements récents
        $recentPath = "HKCU:\Software\Microsoft\Windows\CurrentVersion\Explorer\TypedPaths"
        if (Test-Path $recentPath) {
            $props = Get-ItemProperty -Path $recentPath
            $props.PSObject.Properties | Where-Object { $_.Name -like "url*" } | ForEach-Object {
                if ($_.Value -and $_.Value.StartsWith("\\")) {
                    $recentNetworks += [PSCustomObject]@{
                        Name = "Récent-$($recentNetworks.Count + 1)"
                        Path = $_.Value
                        Type = "Recent Network"
                    }
                }
            }
        }
        
        # Chercher dans les dossiers récents du registre
        $mruPath = "HKCU:\Software\Microsoft\Windows\CurrentVersion\Explorer\ComDlg32\OpenSavePidlMRU"
        if (Test-Path $mruPath) {
            Get-ChildItem $mruPath | ForEach-Object {
                try {
                    $props = Get-ItemProperty -Path $_.PSPath
                    $props.PSObject.Properties | Where-Object { $_.Name -match "^\d+$" } | ForEach-Object {
                        # Essayer de décoder les chemins réseau encodés
                        $value = $_.Value
                        if ($value -and $value.ToString().Contains("\\")) {
                            # Simplification : chercher des patterns de chemins réseau
                            $stringValue = [System.Text.Encoding]::Unicode.GetString($value) -replace '\x00', ''
                            if ($stringValue -match '\\\\[^\\]+\\[^\\]+') {
                                $networkPath = $matches[0]
                                if ($networkPath.Length -gt 5) {
                                    $recentNetworks += [PSCustomObject]@{
                                        Name = "Récent-MRU-$($recentNetworks.Count + 1)"
                                        Path = $networkPath
                                        Type = "Recent MRU"
                                    }
                                }
                            }
                        }
                    }
                } catch {}
            }
        }
        
        $recentNetworks | Sort-Object Path | Get-Unique -AsString | ConvertTo-Json -Compress
    } catch {
        Write-Output ""
    }
    "#;

/// Lists the computers that the network neighbourhood shows.
pub const NEIGHBORHOOD_SCRIPT: &'static str = r#"
    try {
        $networkComputers = @()
        
        # Utiliser net view pour lister les ordinateurs du réseau
        $netViewOutput = net view 2>$null
        if ($netViewOutput) {
            $netViewOutput | ForEach-Object {
                if ($_ -match '^\\\\([^\s]+)\s+(.*)$') {
                    $computerName = $matches[1]
                    $description = $matches[2].Trim()
                    $networkComputers += [PSCustomObject]@{
                        Name = "\\$computerName"
                        Path = "\\$computerName"
                        Type = "Network Computer"
                        Description = $description
                    }
                }
            }
        }
        
        $networkComputers | ConvertTo-Json -Compress
    } catch {
        Write-Output ""
    }
    "#;

/// Lists the pinned locations and the shortcuts that lead to the network.
pub const QUICK_ACCESS_SCRIPT: &'static str = r#"
    try {
        $quickAccessItems = @()
        
        # Chercher dans les raccourcis d'accès rapide
        $quickAccessPath = "$env:APPDATA\Microsoft\Windows\Recent\AutomaticDestinations"
        if (Test-Path $quickAccessPath) {
            # Les fichiers .automaticDestinations-ms contiennent les raccourcis d'accès rapide
            Get-ChildItem -Path $quickAccessPath -Filter "*.automaticDestinations-ms" | ForEach-Object {
                try {
                    # Essayer de lire les métadonnées du fichier
                    $shell = New-Object -ComObject Shell.Application
                    $folder = $shell.Namespace($_.Directory.FullName)
                    $file = $folder.ParseName($_.Name)
                    if ($file -and $file.Path -and $file.Path.StartsWith("\\")) {
                        $quickAccessItems += [PSCustomObject]@{
                            Name = "Accès-$($quickAccessItems.Count + 1)"
                            Path = $file.Path
                            Type = "Quick Access"
                        }
                    }
                } catch {}
            }
        }
        
        # Chercher dans les emplacements favoris du registre
        $pinnedPath = "HKCU:\Software\Microsoft\Windows\CurrentVersion\Explorer\Ribbon"
        if (Test-Path $pinnedPath) {
            Get-ChildItem -Path $pinnedPath -Recurse | ForEach-Object {
                try {
                    $props = Get-ItemProperty -Path $_.PSPath -ErrorAction SilentlyContinue
                    if ($props) {
                        $props.PSObject.Properties | Where-Object { $_.Value -and $_.Value.ToString().StartsWith("\\") } | ForEach-Object {
                            $quickAccessItems += [PSCustomObject]@{
                                Name = "Épinglé-$($quickAccessItems.Count + 1)"
                                Path = $_.Value.ToString()
                                Type = "Pinned Location"
                            }
                        }
                    }
                } catch {}
            }
        }
        
        # Chercher dans les raccourcis du bureau pointant vers des ressources réseau
        $desktopPath = [Environment]::GetFolderPath("Desktop")
        if (Test-Path $desktopPath) {
            Get-ChildItem -Path $desktopPath -Filter "*.lnk" | ForEach-Object {
                try {
                    $shell = New-Object -ComObject WScript.Shell
                    $shortcut = $shell.CreateShortcut($_.FullName)
                    if ($shortcut.TargetPath -and $shortcut.TargetPath.StartsWith("\\")) {
                        $quickAccessItems += [PSCustomObject]@{
                            Name = $_.BaseName
                            Path = $shortcut.TargetPath
                            Type = "Desktop Shortcut"
                        }
                    }
                } catch {}
            }
        }
        
        $quickAccessItems | ConvertTo-Json -Compress
    } catch {
        Write-Output ""
    }
    "#;

/// Lists the network paths in the history of the file explorer.
pub const EXPLORER_HISTORY_SCRIPT: &'static str = r#"
    try {
        $explorerHistory = @()
        
        # Chercher dans l'historique de l'Explorateur Windows
        $historyPath = "HKCU:\Software\Microsoft\Windows\CurrentVersion\Explorer\ComDlg32\LastVisitedPidlMRU"
        if (Test-Path $historyPath) {
            $props = Get-ItemProperty -Path $historyPath -ErrorAction SilentlyContinue
            if ($props) {
                $props.PSObject.Properties | Where-Object { $_.Name -match "^\d+$" } | ForEach-Object {
                    try {
                        # Essayer de décoder les données binaires
                        $value = $_.Value
                        if ($value) {
                            $stringData = [System.Text.Encoding]::Unicode.GetString($value) -replace '\x00', ''
                            if ($stringData -match '\\\\[^\\]+\\[^\\]+') {
                                $networkPath = $matches[0]
                                $explorerHistory += [PSCustomObject]@{
                                    Name = "Historique-$($explorerHistory.Count + 1)"
                                    Path = $networkPath
                                    Type = "Explorer History"
                                }
                            }
                        }
                    } catch {}
                }
            }
        }
        
        # Chercher aussi dans StreamMRU
        $streamPath = "HKCU:\Software\Microsoft\Windows\CurrentVersion\Explorer\ComDlg32\OpenSavePidlMRU\*"
        Get-Item $streamPath -ErrorAction SilentlyContinue | ForEach-Object {
            try {
                $props = Get-ItemProperty -Path $_.PSPath -ErrorAction SilentlyContinue
                if ($props) {
                    $props.PSObject.Properties | Where-Object { $_.Name -match "^\d+$" } | ForEach-Object {
                        try {
                            $value = $_.Value
                            if ($value) {
                                $stringData = [System.Text.Encoding]::Unicode.GetString($value) -replace '\x00', ''
                                if ($stringData -match '\\\\[^\\]+\\[^\\]+') {
                                    $networkPath = $matches[0]
                                    if ($networkPath.Length -gt 5) {
                                        $explorerHistory += [PSCustomObject]@{
                                            Name = "Stream-$($explorerHistory.Count + 1)"
                                            Path = $networkPath
                                            Type = "Explorer Stream"
                                        }
                                    }
                                }
                            }
                        } catch {}
                    }
                }
            } catch {}
        }
        
        $explorerHistory | Sort-Object Path | Get-Unique -AsString | ConvertTo-Json -Compress
    } catch {
        Write-Output ""
    }
    "#;

pub const LOCATION: &'static str = "Emplacement réseau";

pub const LOCATION_NAMED: &'static str = "Emplacement réseau ";

pub const ON: &'static str = " sur ";

pub const LOCATION_TYPE_OPEN: &'static str = "Network Location (Type ";

pub const LOCATION_TYPE_CLOSE: &'static str = ")";

pub const PLACE_ON: &'static str = "Emplacement réseau sur ";

pub const RECENT_ON: &'static str = "Emplacement récent sur ";

pub const SHORTCUT_TO: &'static str = "Raccourci réseau vers ";

pub const HISTORY_TO: &'static str = "Historique de navigation vers ";

pub const COMPUTER: &'static str = "Ordinateur réseau";

pub const RECENT: &'static str = "Recent";

pub const AVAILABLE: &'static str = "Available";

pub const SHORTCUT: &'static str = "Shortcut";

pub const HISTORICAL: &'static str = "Historical";

/// What strategy `index` runs.
pub open spec fn strategy_command(index: int) -> InvocationView {
    if index == 0 {
        native(NET@, seq![NET_USE@])
    } else if index == 1 {
        powershell(LOGICAL_DISKS_SCRIPT@)
    } else if index == 2 {
        powershell(EXPLORER_DRIVES_SCRIPT@)
    } else if index == 3 {
        powershell(REGISTRY_PLACES_SCRIPT@)
    } else if index == 4 {
        powershell(RECENT_PLACES_SCRIPT@)
    } else if index == 5 {
        powershell(NEIGHBORHOOD_SCRIPT@)
    } else if index == 6 {
        powershell(QUICK_ACCESS_SCRIPT@)
    } else {
        powershell(EXPLORER_HISTORY_SCRIPT@)
    }
}

fn strategy_invocation(index: usize) -> (r: Invocation)
    ensures
        r@ == strategy_command(index as int),
{
    if index == 0 {
        let r = Invocation::native(NET, &[NET_USE]);
        assert(r@.arguments =~= seq![NET_USE@]);
        r
    } else if index == 1 {
        Invocation::powershell(String::from_str(LOGICAL_DISKS_SCRIPT))
    } else if index == 2 {
        Invocation::powershell(String::from_str(EXPLORER_DRIVES_SCRIPT))
    } else if index == 3 {
        Invocation::powershell(String::from_str(REGISTRY_PLACES_SCRIPT))
    } else if index == 4 {
        Invocation::powershell(String::from_str(RECENT_PLACES_SCRIPT))
    } else if index == 5 {
        Invocation::powershell(String::from_str(NEIGHBORHOOD_SCRIPT))
    } else if index == 6 {
        Invocation::powershell(String::from_str(QUICK_ACCESS_SCRIPT))
    } else {
        Invocation::powershell(String::from_str(EXPLORER_HISTORY_SCRIPT))
    }
}

/// The commands of all strategies, in the order in which their results
/// are united.
pub fn list_shares_commands() -> (r: Vec<Invocation>)
    ensures
        r@.len() == SHARE_STRATEGIES,
        forall|i: int| 0 <= i < SHARE_STRATEGIES ==> (#[trigger] r@[i])@ == strategy_command(i),
{
    let mut r: Vec<Invocation> = Vec::new();
    let mut i: usize = 0;
    while i < SHARE_STRATEGIES
        invariant
            i <= SHARE_STRATEGIES,
            r@.len() == i,
            forall|k: int| 0 <= k < i ==> (#[trigger] r@[k])@ == strategy_command(k),
        decreases SHARE_STRATEGIES - i,
    {
        r.push(strategy_invocation(i));
        i += 1;
    }
    r
}

/// The share that a mapped network drive stands for; none for a drive
/// without a provider.
pub open spec fn drive_share(drive: ReportedDriveView) -> Option<ShareView> {
    match drive.provider_name {
        Some(provider) => Some(
            ShareView {
                name: drive.device_id,
                path: provider,
                description: match drive.volume_name {
                    Some(volume) => volume,
                    None => DRIVE_ON@ + server_of(provider, UNKNOWN_SERVER@),
                },
                state: ONLINE@,
                share_type: NETWORK_DRIVE@,
                current_users: 1,
            },
        ),
        None => None,
    }
}

/// The share that a network location of the file explorer stands for.
pub open spec fn location_share(drive: ReportedDriveView) -> Option<ShareView> {
    let provider = match drive.provider_name {
        Some(p) => p,
        None => LOCATION@,
    };
    let volume = match drive.volume_name {
        Some(v) => v,
        None => Seq::empty(),
    };
    let drive_type: u32 = match drive.drive_type {
        Some(t) => t,
        None => 4,
    };
    Some(
        ShareView {
            name: drive.device_id,
            path: provider,
            description: if volume.len() > 0 {
                volume + ON@ + server_of(provider, SOME_SERVER@)
            } else {
                LOCATION_NAMED@ + drive.device_id
            },
            state: ONLINE@,
            share_type: LOCATION_TYPE_OPEN@ + decimal(drive_type as nat) + LOCATION_TYPE_CLOSE@,
            current_users: 1,
        },
    )
}

/// The share that a network place stands for under strategy `index`.
pub open spec fn place_share(index: int, place: ReportedPlaceView) -> ShareView {
    ShareView {
        name: place.name,
        path: place.path,
        description: if index == 5 {
            match place.description {
                Some(d) => d,
                None => COMPUTER@,
            }
        } else {
            (if index == 3 {
                PLACE_ON@
            } else if index == 4 {
                RECENT_ON@
            } else if index == 6 {
                SHORTCUT_TO@
            } else {
                HISTORY_TO@
            }) + server_of(place.path, UNKNOWN_SERVER@)
        },
        state: if index == 3 {
            ONLINE@
        } else if index == 4 {
            RECENT@
        } else if index == 5 {
            AVAILABLE@
        } else if index == 6 {
            SHORTCUT@
        } else {
            HISTORICAL@
        },
        share_type: place.kind,
        current_users: if index == 3 {
            1
        } else {
            0
        },
    }
}

fn share_of_drive(drive: &ReportedDrive) -> (r: Option<ShareInfo>)
    ensures
        match r {
            Some(share) => drive_share(drive@) == Some(share@),
            None => drive_share(drive@) is None,
        },
{
    match &drive.provider_name {
        Some(provider) => {
            let description = match &drive.volume_name {
                Some(volume) => volume.clone(),
                None => String::from_str(DRIVE_ON).concat(
                    server_name(provider.as_str(), UNKNOWN_SERVER).as_str(),
                ),
            };
            Some(
                ShareInfo {
                    name: drive.device_id.clone(),
                    path: provider.clone(),
                    description,
                    state: String::from_str(ONLINE),
                    share_type: String::from_str(NETWORK_DRIVE),
                    current_users: 1,
                },
            )
        },
        None => None,
    }
}

fn share_of_location(drive: &ReportedDrive) -> (r: Option<ShareInfo>)
    ensures
        match r {
            Some(share) => location_share(drive@) == Some(share@),
            None => location_share(drive@) is None,
        },
{
    let provider = match &drive.provider_name {
        Some(p) => p.clone(),
        None => String::from_str(LOCATION),
    };
    let volume = match &drive.volume_name {
        Some(v) => v.clone(),
        None => String::new(),
    };
    let drive_type: u32 = match drive.drive_type {
        Some(t) => t,
        None => 4,
    };
    let description = if chars_of(volume.as_str()).len() > 0 {
        volume.concat(ON).concat(server_name(provider.as_str(), SOME_SERVER).as_str())
    } else {
        String::from_str(LOCATION_NAMED).concat(drive.device_id.as_str())
    };
    let type_digits = text_of(&decimal_of(drive_type as u128));
    Some(
        ShareInfo {
            name: drive.device_id.clone(),
            path: provider,
            description,
            state: String::from_str(ONLINE),
            share_type: String::from_str(LOCATION_TYPE_OPEN).concat(type_digits.as_str()).concat(
                LOCATION_TYPE_CLOSE,
            ),
            current_users: 1,
        },
    )
}

fn share_of_place(index: usize, place: &ReportedPlace) -> (r: ShareInfo)
    ensures
        r@ == place_share(index as int, place@),
{
    let description = if index == 5 {
        match &place.description {
            Some(d) => d.clone(),
            None => String::from_str(COMPUTER),
        }
    } else {
        let prefix = if index == 3 {
            PLACE_ON
        } else if index == 4 {
            RECENT_ON
        } else if index == 6 {
            SHORTCUT_TO
        } else {
            HISTORY_TO
        };
        String::from_str(prefix).concat(server_name(place.path.as_str(), UNKNOWN_SERVER).as_str())
    };
    let state = if index == 3 {
        ONLINE
    } else if index == 4 {
        RECENT
    } else if index == 5 {
        AVAILABLE
    } else if index == 6 {
        SHORTCUT
    } else {
        HISTORICAL
    };
    ShareInfo {
        name: place.name.clone(),
        path: place.path.clone(),
        description,
        state: String::from_str(state),
        share_type: place.kind.clone(),
        current_users: if index == 3 {
            1
        } else {
            0
        },
    }
}

/// The shares that the drives stand for, in order; `locations` says
/// whether they are taken as locations of the file explorer.
pub open spec fn drive_shares(drives: Seq<ReportedDriveView>, locations: bool) -> Seq<ShareView>
    decreases drives.len(),
{
    if drives.len() == 0 {
        Seq::empty()
    } else {
        let init = drive_shares(drives.drop_last(), locations);
        let share = if locations {
            location_share(drives.last())
        } else {
            drive_share(drives.last())
        };
        match share {
            Some(s) => init.push(s),
            None => init,
        }
    }
}

/// The shares that the places stand for under strategy `index`, in order.
pub open spec fn place_shares(index: int, places: Seq<ReportedPlaceView>) -> Seq<ShareView> {
    Seq::new(places.len(), |i: int| place_share(index, places[i]))
}

fn shares_of_drives(drives: &Vec<ReportedDrive>, locations: bool) -> (r: Vec<ShareInfo>)
    ensures
        views(r@) == drive_shares(views(drives@), locations),
{
    let ghost all = views(drives@);
    let mut r: Vec<ShareInfo> = Vec::new();
    let mut i: usize = 0;
    assert(views(r@) =~= Seq::<ShareView>::empty());
    while i < drives.len()
        invariant
            i <= drives.len(),
            all == views(drives@),
            views(r@) == drive_shares(all.subrange(0, i as int), locations),
        decreases drives.len() - i,
    {
        proof {
            let next = all.subrange(0, i + 1);
            assert(next.drop_last() == all.subrange(0, i as int));
            assert(next.last() == drives@[i as int]@);
        }
        let share = if locations {
            share_of_location(&drives[i])
        } else {
            share_of_drive(&drives[i])
        };
        match share {
            Some(s) => {
                let ghost before = views(r@);
                r.push(s);
                assert(views(r@) =~= before.push(r@[r.len() - 1]@));
            },
            None => {},
        }
        i += 1;
    }
    assert(all.subrange(0, drives.len() as int) == all);
    r
}

fn shares_of_places(index: usize, places: &Vec<ReportedPlace>) -> (r: Vec<ShareInfo>)
    ensures
        views(r@) == place_shares(index as int, views(places@)),
{
    let mut r: Vec<ShareInfo> = Vec::new();
    let mut i: usize = 0;
    while i < places.len()
        invariant
            i <= places.len(),
            r@.len() == i,
            forall|k: int|
                0 <= k < i ==> (#[trigger] r@[k])@ == place_share(index as int, places@[k]@),
        decreases places.len() - i,
    {
        r.push(share_of_place(index, &places[i]));
        i += 1;
    }
    assert(views(r@) =~= place_shares(index as int, views(places@)));
    r
}

/// What the output of strategy `index` holds.
pub open spec fn shares_in_output(index: int, output: Seq<char>) -> Seq<ShareView> {
    if index == 0 {
        net_use_shares(output)
    } else if index == 1 || index == 2 {
        match typed_output::<ReportedDrive>(output) {
            Some(drives) => drive_shares(drives, index == 2),
            None => Seq::empty(),
        }
    } else {
        match typed_output::<ReportedPlace>(output) {
            Some(places) => place_shares(index, places),
            None => Seq::empty(),
        }
    }
}

/// What the output of strategy `index` holds.
pub fn read_shares(index: usize, output: &str) -> (r: Vec<ShareInfo>)
    ensures
        views(r@) == shares_in_output(index as int, output@),
{
    if index == 0 {
        shares_from_net_use(output)
    } else if index == 1 || index == 2 {
        match read_output::<ReportedDrive>(output) {
            Some(drives) => shares_of_drives(&drives, index == 2),
            None => {
                let r: Vec<ShareInfo> = Vec::new();
                assert(views(r@) =~= Seq::<ShareView>::empty());
                r
            },
        }
    } else {
        match read_output::<ReportedPlace>(output) {
            Some(places) => shares_of_places(index, &places),
            None => {
                let r: Vec<ShareInfo> = Vec::new();
                assert(views(r@) =~= Seq::<ShareView>::empty());
                r
            },
        }
    }
}

/// What strategy `index` contributes: what its output holds where the
/// tool ran and reported success, nothing otherwise.
pub open spec fn candidates(index: int, outcome: Result<ExecutionResult, ErrorKind>) -> Seq<
    ShareView,
> {
    match outcome {
        Ok(raw) => if raw.exit_success {
            shares_in_output(index, utf8_lossy(raw.stdout@))
        } else {
            Seq::empty()
        },
        Err(_) => Seq::empty(),
    }
}

/// The shares found after strategy `index` contributed `incoming`: what
/// was found stays, and each of `incoming` whose path is new is added;
/// a later duplicate of a path is dropped, whatever source it comes from.
pub open spec fn absorbed(found: Seq<ShareView>, index: int, incoming: Seq<ShareView>) -> Seq<
    ShareView,
> {
    if 0 <= index < SHARE_STRATEGIES {
        merged(found, incoming, path_key())
    } else {
        found
    }
}

/// The shares found once the strategies whose outcomes are given, in
/// order from the first on, have all contributed.
pub open spec fn shares_found(outcomes: Seq<Result<ExecutionResult, ErrorKind>>) -> Seq<ShareView>
    decreases outcomes.len(),
{
    if outcomes.len() == 0 {
        Seq::empty()
    } else {
        absorbed(
            shares_found(outcomes.drop_last()),
            outcomes.len() - 1,
            candidates(outcomes.len() - 1, outcomes.last()),
        )
    }
}

fn strategy_candidates(index: usize, outcome: &Result<ExecutionResult, ErrorKind>) -> (r: Vec<
    ShareInfo,
>)
    ensures
        views(r@) == candidates(index as int, *outcome),
{
    match outcome {
        Ok(raw) => if raw.exit_success {
            let out = raw.stdout_text();
            read_shares(index, out.as_str())
        } else {
            let r: Vec<ShareInfo> = Vec::new();
            assert(views(r@) =~= Seq::<ShareView>::empty());
            r
        },
        Err(_) => {
            let r: Vec<ShareInfo> = Vec::new();
            assert(views(r@) =~= Seq::<ShareView>::empty());
            r
        },
    }
}

/// The shares that the strategies found together. A strategy that could
/// not be run, that failed, or whose output cannot be read contributes
/// nothing and stops no other.
pub fn list_shares_response(outcomes: &Vec<Result<ExecutionResult, ErrorKind>>) -> (r: Vec<
    ShareInfo,
>)
    ensures
        views(r@) == shares_found(outcomes@),
{
    let mut found: Vec<ShareInfo> = Vec::new();
    let mut i: usize = 0;
    assert(views(found@) =~= Seq::<ShareView>::empty());
    while i < outcomes.len()
        invariant
            i <= outcomes.len(),
            views(found@) == shares_found(outcomes@.subrange(0, i as int)),
        decreases outcomes.len() - i,
    {
        proof {
            let next = outcomes@.subrange(0, i + 1);
            assert(next.drop_last() == outcomes@.subrange(0, i as int));
            assert(next.last() == outcomes@[i as int]);
        }
        let incoming = strategy_candidates(i, &outcomes[i]);
        if i < SHARE_STRATEGIES {
            merge_shares(&mut found, &incoming);
        }
        i += 1;
    }
    assert(outcomes@.subrange(0, outcomes.len() as int) == outcomes@);
    found
}

/// Whether one of the strategies whose outcomes are given gave a share
/// with the path `path`.
pub open spec fn path_discovered(
    outcomes: Seq<Result<ExecutionResult, ErrorKind>>,
    path: Seq<char>,
) -> bool {
    exists|i: int|
        0 <= i < outcomes.len() && i < SHARE_STRATEGIES && holds_key(
            #[trigger] candidates(i, outcomes[i]),
            path_key(),
            path,
        )
}

/// What the strategies found together holds no path twice.
pub proof fn law_shares_hold_no_path_twice(outcomes: Seq<Result<ExecutionResult, ErrorKind>>)
    ensures
        distinct(shares_found(outcomes), path_key()),
    decreases outcomes.len(),
{
    if outcomes.len() > 0 {
        law_shares_hold_no_path_twice(outcomes.drop_last());
        law_merge_keeps_distinct(
            shares_found(outcomes.drop_last()),
            candidates(outcomes.len() - 1, outcomes.last()),
            path_key(),
        );
    }
}

/// What the strategies found together holds a path exactly where one of
/// them gave it: no path that was discovered is lost, and none is made up.
pub proof fn law_shares_hold_the_discovered_paths(
    outcomes: Seq<Result<ExecutionResult, ErrorKind>>,
    path: Seq<char>,
)
    ensures
        holds_key(shares_found(outcomes), path_key(), path) <==> path_discovered(outcomes, path),
    decreases outcomes.len(),
{
    if outcomes.len() > 0 {
        let before = outcomes.drop_last();
        let last = outcomes.len() - 1;
        let incoming = candidates(last, outcomes.last());
        law_shares_hold_the_discovered_paths(before, path);
        law_merge_covers(shares_found(before), incoming, path_key(), path);
        if path_discovered(before, path) {
            let i = choose|i: int|
                0 <= i < before.len() && i < SHARE_STRATEGIES && holds_key(
                    #[trigger] candidates(i, before[i]),
                    path_key(),
                    path,
                );
            assert(before[i] == outcomes[i]);
            assert(holds_key(candidates(i, outcomes[i]), path_key(), path));
        }
        if last < SHARE_STRATEGIES && holds_key(incoming, path_key(), path) {
            assert(holds_key(candidates(last, outcomes[last]), path_key(), path));
        }
        if path_discovered(outcomes, path) {
            let i = choose|i: int|
                0 <= i < outcomes.len() && i < SHARE_STRATEGIES && holds_key(
                    #[trigger] candidates(i, outcomes[i]),
                    path_key(),
                    path,
                );
            if i < last {
                assert(before[i] == outcomes[i]);
                assert(holds_key(candidates(i, before[i]), path_key(), path));
            }
        }
    }
}

/// What the strategies found together holds each discovered path exactly
/// once.
pub proof fn law_shares_hold_each_path_once(
    outcomes: Seq<Result<ExecutionResult, ErrorKind>>,
    path: Seq<char>,
)
    ensures
        count_key(shares_found(outcomes), path_key(), path) == if path_discovered(outcomes, path) {
            1nat
        } else {
            0nat
        },
{
    law_shares_hold_no_path_twice(outcomes);
    law_shares_hold_the_discovered_paths(outcomes, path);
    law_count_of_distinct(shares_found(outcomes), path_key(), path);
}

/// What was found before a strategy contributed stays in place: the entry
/// kept for a path is the one of the earliest strategy that gave it.
pub proof fn law_shares_keep_the_earliest(outcomes: Seq<Result<ExecutionResult, ErrorKind>>)
    requires
        outcomes.len() > 0,
    ensures
        shares_found(outcomes).len() >= shares_found(outcomes.drop_last()).len(),
        shares_found(outcomes).subrange(0, shares_found(outcomes.drop_last()).len() as int)
            == shares_found(outcomes.drop_last()),
{
    let before = shares_found(outcomes.drop_last());
    law_merge_keeps_first(before, candidates(outcomes.len() - 1, outcomes.last()), path_key());
    assert(before.subrange(0, before.len() as int) == before);
}

// ---------------------------------------------------------------------------
// Mapping and unmapping a drive
// ---------------------------------------------------------------------------

/// How far a change to the mapped drives has come.
#[derive(Debug)]
pub enum ShareChange {
    /// The drive letter is being looked up before a share is mapped to it.
    CheckingFree { name: String, path: String },
    /// The drive letter is being looked up before its share is unmapped.
    CheckingMapped { name: String },
    /// The change itself is being made.
    Changing,
}

pub const BAD_DRIVE: &'static str = "La lettre de lecteur doit être au format 'Z:' par exemple";

pub const BAD_SHARE_PATH: &'static str =
    "Le chemin doit être un chemin UNC (commençant par \\\\serveur\\partage)";

pub const FIND_DRIVE: &'static str = "Get-PSDrive -Name ";

pub const FIND_DRIVE_QUIETLY: &'static str = " -ErrorAction SilentlyContinue";

pub const MAP_DRIVE: &'static str = "net use ";

pub const MAP_PERSISTENT: &'static str = " /persistent:yes";

pub const UNMAP: &'static str = " /delete /y";

pub const DRIVE_OPEN: &'static str = "La lettre de lecteur '";

pub const DRIVE_IN_USE: &'static str = "' est déjà utilisée";

pub const DRIVE_NAMED: &'static str = "Le lecteur '";

pub const DRIVE_MISSING: &'static str = "' n'existe pas";

/// The script that looks a drive letter up.
pub open spec fn find_drive_script(letter: char) -> Seq<char> {
    FIND_DRIVE@ + double_quoted(seq![letter]) + FIND_DRIVE_QUIETLY@
}

/// The command line that maps `path` to the drive `name`.
pub open spec fn map_drive_line(name: Seq<char>, path: Seq<char>) -> Seq<char> {
    MAP_DRIVE@ + name + seq![' ', '"'] + path + seq!['"'] + MAP_PERSISTENT@
}

/// The command line that unmaps the drive `name`.
pub open spec fn unmap_drive_line(name: Seq<char>) -> Seq<char> {
    MAP_DRIVE@ + name + UNMAP@
}

fn find_drive_invocation(letter: char) -> (r: Invocation)
    ensures
        r@ == powershell(find_drive_script(letter)),
{
    let mut one: Vec<char> = Vec::new();
    one.push(letter);
    assert(one@ =~= seq![letter]);
    let quoted = quote_double(text_of(&one).as_str());
    Invocation::powershell(
        String::from_str(FIND_DRIVE).concat(quoted.as_str()).concat(FIND_DRIVE_QUIETLY),
    )
}

/// The first step of mapping `path` to the drive `name`: the failure of a
/// validation, before any tool is run, or the lookup of the drive letter.
pub fn create_share_begin(name: &str, path: &str) -> (r: Step<ShareChange, Result<(), ErrorKind>>)
    ensures
        match r {
            Step::Run(state, invocation) => {
                &&& mapped_drive_of(name@) matches Some(letter)
                &&& is_share_path(path@)
                &&& state matches ShareChange::CheckingFree { name: n, path: p }
                &&& n@ == name@
                &&& p@ == path@
                &&& invocation@ == powershell(find_drive_script(letter))
            },
            Step::Done(Err(e)) => {
                ||| mapped_drive_of(name@) is None && e@ == (ErrorView::InvalidArgument {
                    detail: BAD_DRIVE@,
                })
                ||| mapped_drive_of(name@) is Some && !is_share_path(path@) && e@ == (
                ErrorView::InvalidArgument { detail: BAD_SHARE_PATH@ })
            },
            Step::Done(Ok(_)) => false,
        },
{
    match parse_mapped_drive(name) {
        None => Step::Done(Err(ErrorKind::invalid_argument(BAD_DRIVE))),
        Some(letter) => if !check_share_path(path) {
            Step::Done(Err(ErrorKind::invalid_argument(BAD_SHARE_PATH)))
        } else {
            Step::Run(
                ShareChange::CheckingFree {
                    name: String::from_str(name),
                    path: String::from_str(path),
                },
                find_drive_invocation(letter),
            )
        },
    }
}

/// The first step of unmapping the drive `name`: the failure of the
/// validation, before any tool is run, or the lookup of the drive letter.
pub fn delete_share_begin(name: &str) -> (r: Step<ShareChange, Result<(), ErrorKind>>)
    ensures
        match r {
            Step::Run(state, invocation) => {
                &&& mapped_drive_of(name@) matches Some(letter)
                &&& state matches ShareChange::CheckingMapped { name: n }
                &&& n@ == name@
                &&& invocation@ == powershell(find_drive_script(letter))
            },
            Step::Done(Err(e)) => mapped_drive_of(name@) is None && e@ == (
            ErrorView::InvalidArgument { detail: BAD_DRIVE@ }),
            Step::Done(Ok(_)) => false,
        },
{
    match parse_mapped_drive(name) {
        None => Step::Done(Err(ErrorKind::invalid_argument(BAD_DRIVE))),
        Some(letter) => Step::Run(
            ShareChange::CheckingMapped { name: String::from_str(name) },
            find_drive_invocation(letter),
        ),
    }
}

/// What follows a lookup of a drive letter that found `found` bytes of
/// output, before mapping: the mapping, where the letter is free.
pub open spec fn after_free_check(
    name: Seq<char>,
    path: Seq<char>,
    outcome: Result<ExecutionResult, ErrorKind>,
) -> Result<InvocationView, ErrorView> {
    match outcome {
        Err(e) => Err(e@),
        Ok(raw) => if raw.stdout@.len() > 0 {
            Err(ErrorView::Unavailable { detail: DRIVE_OPEN@ + name + DRIVE_IN_USE@ })
        } else {
            Ok(command_prompt(map_drive_line(name, path)))
        },
    }
}

/// What follows a lookup of a drive letter before unmapping: the
/// unmapping, where the letter is in use.
pub open spec fn after_mapped_check(
    name: Seq<char>,
    outcome: Result<ExecutionResult, ErrorKind>,
) -> Result<InvocationView, ErrorView> {
    match outcome {
        Err(e) => Err(e@),
        Ok(raw) => if raw.stdout@.len() == 0 {
            Err(ErrorView::Unavailable { detail: DRIVE_NAMED@ + name + DRIVE_MISSING@ })
        } else {
            Ok(command_prompt(unmap_drive_line(name)))
        },
    }
}

/// The next step of a change to the mapped drives, given what the run
/// that the last step asked for came to.
pub fn share_change_resume(state: ShareChange, outcome: Result<ExecutionResult, ErrorKind>) -> (r:
    Step<ShareChange, Result<(), ErrorKind>>)
    ensures
        match state {
            ShareChange::CheckingFree { name, path } => match after_free_check(
                name@,
                path@,
                outcome,
            ) {
                Ok(next) => r matches Step::Run(ShareChange::Changing, invocation) && invocation@
                    == next,
                Err(e) => r matches Step::Done(Err(err)) && err@ == e,
            },
            ShareChange::CheckingMapped { name } => match after_mapped_check(name@, outcome) {
                Ok(next) => r matches Step::Run(ShareChange::Changing, invocation) && invocation@
                    == next,
                Err(e) => r matches Step::Done(Err(err)) && err@ == e,
            },
            ShareChange::Changing => r matches Step::Done(res) && yields_unit(
                res,
                acknowledged(outcome),
            ),
        },
{
    match state {
        ShareChange::CheckingFree { name, path } => match outcome {
            Err(e) => Step::Done(Err(e)),
            Ok(raw) => if raw.stdout.len() > 0 {
                Step::Done(
                    Err(
                        ErrorKind::Unavailable {
                            detail: String::from_str(DRIVE_OPEN).concat(name.as_str()).concat(
                                DRIVE_IN_USE,
                            ),
                        },
                    ),
                )
            } else {
                let line = String::from_str(MAP_DRIVE).concat(name.as_str()).concat(" \"").concat(
                    path.as_str(),
                ).concat("\"").concat(MAP_PERSISTENT);
                proof {
                    reveal_strlit(" \"");
                    reveal_strlit("\"");
                    assert(" \""@ =~= seq![' ', '"']);
                    assert("\""@ =~= seq!['"']);
                }
                Step::Run(ShareChange::Changing, Invocation::command_prompt(line))
            },
        },
        ShareChange::CheckingMapped { name } => match outcome {
            Err(e) => Step::Done(Err(e)),
            Ok(raw) => if raw.stdout.len() == 0 {
                Step::Done(
                    Err(
                        ErrorKind::Unavailable {
                            detail: String::from_str(DRIVE_NAMED).concat(name.as_str()).concat(
                                DRIVE_MISSING,
                            ),
                        },
                    ),
                )
            } else {
                let line = String::from_str(MAP_DRIVE).concat(name.as_str()).concat(UNMAP);
                Step::Run(ShareChange::Changing, Invocation::command_prompt(line))
            },
        },
        ShareChange::Changing => Step::Done(acknowledge(outcome)),
    }
}

} // verus!
