//! Updates of the operating system: what is installed, what is on offer,
//! and installing.

use vstd::prelude::*;
use vstd::string::*;
use crate::command::{powershell_bypass, Invocation, InvocationView};
use crate::error::{ErrorKind, ErrorView};
use crate::execution::{utf8_lossy, ExecutionResult};
use crate::fallback::{holds_key, Chain, Discipline};
use crate::flow::Step;
use crate::json::{JsonTree, JsonValue};
use crate::lexical::{comes_before, lemma_before_transitive, lemma_before_trichotomy, text_before};
use crate::mapper::{
    bool_at, bool_field, date_at, date_field, first_text_at, first_text_field, read_output, report,
    reported, text_at, text_field, text_field_or, text_or, typed_output, yields, Record,
    NOT_AVAILABLE,
};
use crate::sizes::{capped, parse_size_string, size_in_bytes};
use crate::text::{
    blank, chars_of, contains, decimal, decimal_of, includes, is_blank, same_text, text_of, trim,
    trimmed, views,
};

verus! {

// ---------------------------------------------------------------------------
// Installed updates
// ---------------------------------------------------------------------------

#[derive(Debug)]
pub struct InstalledUpdateInfo {
    pub kb_id: String,
    pub description: String,
    pub installed_by: String,
    pub installed_on: String,
}

pub struct InstalledUpdateView {
    pub kb_id: Seq<char>,
    pub description: Seq<char>,
    pub installed_by: Seq<char>,
    pub installed_on: Seq<char>,
}

impl View for InstalledUpdateInfo {
    type V = InstalledUpdateView;

    open spec fn view(&self) -> InstalledUpdateView {
        InstalledUpdateView {
            kb_id: self.kb_id@,
            description: self.description@,
            installed_by: self.installed_by@,
            installed_on: self.installed_on@,
        }
    }
}

impl InstalledUpdateInfo {
    pub fn copy(&self) -> (r: InstalledUpdateInfo)
        ensures
            r@ == self@,
    {
        InstalledUpdateInfo {
            kb_id: self.kb_id.clone(),
            description: self.description.clone(),
            installed_by: self.installed_by.clone(),
            installed_on: self.installed_on.clone(),
        }
    }
}

pub const HOTFIX: &'static str = "Hotfix Windows";

pub const SYSTEM: &'static str = "Système";

pub const WINDOWS_UPDATE: &'static str = "Windows Update";

pub const SOME_UPDATE: &'static str = "Mise à jour Windows";

impl Record for InstalledUpdateInfo {
    /// A hotfix needs its identifier, under either spelling of the
    /// member's name.
    open spec fn mapped(tree: JsonTree) -> Option<InstalledUpdateView> {
        match first_text_at(tree, seq!["HotFixID"@, "HotFixId"@]) {
            Some(kb_id) => Some(
                InstalledUpdateView {
                    kb_id,
                    description: text_or(tree, "Description"@, HOTFIX@),
                    installed_by: text_or(tree, "InstalledBy"@, SYSTEM@),
                    installed_on: date_at(tree, "InstalledOn"@),
                },
            ),
            None => None,
        }
    }

    fn map(value: &JsonValue) -> (r: Option<InstalledUpdateInfo>) {
        let names = ["HotFixID", "HotFixId"];
        assert(views(names@) =~= seq!["HotFixID"@, "HotFixId"@]);
        let kb_id = first_text_field(value, &names)?;
        Some(
            InstalledUpdateInfo {
                kb_id,
                description: text_field_or(value, "Description", HOTFIX),
                installed_by: text_field_or(value, "InstalledBy", SYSTEM),
                installed_on: date_field(value, "InstalledOn"),
            },
        )
    }
}

/// An entry of the update history, as the installed update it stands for.
#[derive(Debug)]
pub struct HistoryEntry {
    pub update: InstalledUpdateInfo,
}

impl View for HistoryEntry {
    type V = InstalledUpdateView;

    open spec fn view(&self) -> InstalledUpdateView {
        self.update@
    }
}

impl Record for HistoryEntry {
    /// Any object is an entry; each member that is missing gets its
    /// default, and the title stands in for the description.
    open spec fn mapped(tree: JsonTree) -> Option<InstalledUpdateView> {
        if tree is Object {
            Some(
                InstalledUpdateView {
                    kb_id: match first_text_at(tree, seq!["KB"@, "Kb"@]) {
                        Some(kb) => kb,
                        None => NOT_AVAILABLE@,
                    },
                    description: match text_at(tree, "Title"@) {
                        Some(title) => title,
                        None => text_or(tree, "Description"@, SOME_UPDATE@),
                    },
                    installed_by: WINDOWS_UPDATE@,
                    installed_on: text_or(tree, "Date"@, NOT_AVAILABLE@),
                },
            )
        } else {
            None
        }
    }

    fn map(value: &JsonValue) -> (r: Option<HistoryEntry>) {
        if !value.is_object() {
            return None;
        }
        let names = ["KB", "Kb"];
        assert(views(names@) =~= seq!["KB"@, "Kb"@]);
        let kb_id = match first_text_field(value, &names) {
            Some(kb) => kb,
            None => String::from_str(NOT_AVAILABLE),
        };
        let description = match text_field(value, "Title") {
            Some(title) => title,
            None => text_field_or(value, "Description", SOME_UPDATE),
        };
        Some(
            HistoryEntry {
                update: InstalledUpdateInfo {
                    kb_id,
                    description,
                    installed_by: String::from_str(WINDOWS_UPDATE),
                    installed_on: text_field_or(value, "Date", NOT_AVAILABLE),
                },
            },
        )
    }
}

/// Adds the updates of `entries` to `gathered`, in order.
fn gather_entries(gathered: &mut Vec<InstalledUpdateInfo>, entries: &Vec<HistoryEntry>)
    ensures
        views(final(gathered)@) == views(old(gathered)@) + views(entries@),
{
    let ghost start = views(gathered@);
    let ghost all = views(entries@);
    let mut i: usize = 0;
    while i < entries.len()
        invariant
            i <= entries.len(),
            all == views(entries@),
            views(gathered@) == start + all.subrange(0, i as int),
        decreases entries.len() - i,
    {
        let ghost before = views(gathered@);
        gathered.push(entries[i].update.copy());
        assert(views(gathered@) =~= before.push(entries@[i as int]@));
        i += 1;
        assert(views(gathered@) =~= start + all.subrange(0, i as int));
    }
    assert(all.subrange(0, entries.len() as int) == all);
}

/// Adds `updates` to `gathered`, in order.
fn gather_updates(gathered: &mut Vec<InstalledUpdateInfo>, updates: &Vec<InstalledUpdateInfo>)
    ensures
        views(final(gathered)@) == views(old(gathered)@) + views(updates@),
{
    let ghost start = views(gathered@);
    let ghost all = views(updates@);
    let mut i: usize = 0;
    while i < updates.len()
        invariant
            i <= updates.len(),
            all == views(updates@),
            views(gathered@) == start + all.subrange(0, i as int),
        decreases updates.len() - i,
    {
        let ghost before = views(gathered@);
        gathered.push(updates[i].copy());
        assert(views(gathered@) =~= before.push(updates@[i as int]@));
        i += 1;
        assert(views(gathered@) =~= start + all.subrange(0, i as int));
    }
    assert(all.subrange(0, updates.len() as int) == all);
}

// ---------------------------------------------------------------------------
// One entry for each identifier, in the order of the identifiers
// ---------------------------------------------------------------------------

/// The identifier by which updates count as the same.
pub open spec fn kb_key() -> spec_fn(InstalledUpdateView) -> Seq<char> {
    |u: InstalledUpdateView| u.kb_id
}

/// Whether each entry comes before the next by its identifier.
pub open spec fn sorted_by_kb(s: Seq<InstalledUpdateView>) -> bool {
    forall|i: int, j: int|
        0 <= i < j < s.len() ==> text_before((#[trigger] s[i]).kb_id, (#[trigger] s[j]).kb_id)
}

/// Whether the entry at `j` is the first of `items` with its identifier.
pub open spec fn is_first_of_kb(items: Seq<InstalledUpdateView>, j: int) -> bool {
    &&& 0 <= j < items.len()
    &&& forall|i: int| 0 <= i < j ==> (#[trigger] items[i]).kb_id != items[j].kb_id
}

/// Whether `entry` is, among `items`, the first with its identifier.
pub open spec fn is_first_entry(items: Seq<InstalledUpdateView>, entry: InstalledUpdateView) -> bool {
    exists|j: int| is_first_of_kb(items, j) && #[trigger] items[j] == entry
}

/// Whether `r` holds, for each identifier that occurs in `items`, the
/// first entry of `items` that has it, and nothing else, in the order of
/// the identifiers.
pub open spec fn is_sorted_union(
    r: Seq<InstalledUpdateView>,
    items: Seq<InstalledUpdateView>,
) -> bool {
    &&& sorted_by_kb(r)
    &&& forall|k: int| 0 <= k < r.len() ==> is_first_entry(items, #[trigger] r[k])
    &&& forall|j: int|
        0 <= j < items.len() ==> holds_key(r, kb_key(), (#[trigger] items[j]).kb_id)
}

proof fn lemma_first_entry_by_kb(
    items: Seq<InstalledUpdateView>,
    a: InstalledUpdateView,
    b: InstalledUpdateView,
)
    requires
        is_first_entry(items, a),
        is_first_entry(items, b),
        a.kb_id == b.kb_id,
    ensures
        a == b,
{
    let i = choose|i: int| is_first_of_kb(items, i) && #[trigger] items[i] == a;
    let j = choose|j: int| is_first_of_kb(items, j) && #[trigger] items[j] == b;
    if i < j {
        assert(items[i].kb_id != items[j].kb_id);
    } else if j < i {
        assert(items[j].kb_id != items[i].kb_id);
    }
}

proof fn lemma_sorted_same_keys(r1: Seq<InstalledUpdateView>, r2: Seq<InstalledUpdateView>)
    requires
        sorted_by_kb(r1),
        sorted_by_kb(r2),
        forall|k: int| 0 <= k < r1.len() ==> holds_key(r2, kb_key(), (#[trigger] r1[k]).kb_id),
        forall|k: int| 0 <= k < r2.len() ==> holds_key(r1, kb_key(), (#[trigger] r2[k]).kb_id),
    ensures
        r1.len() == r2.len(),
        forall|k: int| 0 <= k < r1.len() ==> (#[trigger] r1[k]).kb_id == r2[k].kb_id,
    decreases r1.len(),
{
    if r1.len() == 0 {
        if r2.len() > 0 {
            assert(holds_key(r1, kb_key(), r2[0].kb_id));
        }
    } else {
        let last1 = r1.last();
        assert(holds_key(r2, kb_key(), r1[r1.len() - 1].kb_id));
        let last2 = r2.last();
        // The greatest identifier is the same in both.
        let i2 = choose|i: int| 0 <= i < r2.len() && kb_key()(#[trigger] r2[i]) == last1.kb_id;
        assert(holds_key(r1, kb_key(), r2[r2.len() - 1].kb_id));
        let i1 = choose|i: int| 0 <= i < r1.len() && kb_key()(#[trigger] r1[i]) == last2.kb_id;
        if i2 < r2.len() - 1 {
            assert(text_before(r2[i2].kb_id, r2[r2.len() - 1].kb_id));
            if i1 < r1.len() - 1 {
                assert(text_before(r1[i1].kb_id, r1[r1.len() - 1].kb_id));
            }
            lemma_before_trichotomy(last1.kb_id, last2.kb_id);
            lemma_before_trichotomy(last2.kb_id, last1.kb_id);
        }
        assert(last1.kb_id == last2.kb_id);
        let d1 = r1.drop_last();
        let d2 = r2.drop_last();
        assert forall|i: int, j: int| 0 <= i < j < d1.len() implies text_before(
            (#[trigger] d1[i]).kb_id,
            (#[trigger] d1[j]).kb_id,
        ) by {
            assert(d1[i] == r1[i] && d1[j] == r1[j]);
        }
        assert forall|i: int, j: int| 0 <= i < j < d2.len() implies text_before(
            (#[trigger] d2[i]).kb_id,
            (#[trigger] d2[j]).kb_id,
        ) by {
            assert(d2[i] == r2[i] && d2[j] == r2[j]);
        }
        assert forall|k: int| 0 <= k < d1.len() implies holds_key(
            d2,
            kb_key(),
            (#[trigger] d1[k]).kb_id,
        ) by {
            assert(d1[k] == r1[k]);
            assert(holds_key(r2, kb_key(), r1[k].kb_id));
            let i = choose|i: int| 0 <= i < r2.len() && kb_key()(#[trigger] r2[i]) == r1[k].kb_id;
            assert(text_before(r1[k].kb_id, r1[r1.len() - 1].kb_id));
            lemma_before_trichotomy(r1[k].kb_id, last2.kb_id);
            assert(i < r2.len() - 1);
            assert(d2[i] == r2[i]);
        }
        assert forall|k: int| 0 <= k < d2.len() implies holds_key(
            d1,
            kb_key(),
            (#[trigger] d2[k]).kb_id,
        ) by {
            assert(d2[k] == r2[k]);
            assert(holds_key(r1, kb_key(), r2[k].kb_id));
            let i = choose|i: int| 0 <= i < r1.len() && kb_key()(#[trigger] r1[i]) == r2[k].kb_id;
            assert(text_before(r2[k].kb_id, r2[r2.len() - 1].kb_id));
            lemma_before_trichotomy(r2[k].kb_id, last1.kb_id);
            assert(i < r1.len() - 1);
            assert(d1[i] == r1[i]);
        }
        lemma_sorted_same_keys(d1, d2);
        assert forall|k: int| 0 <= k < r1.len() implies (#[trigger] r1[k]).kb_id
            == r2[k].kb_id by {
            if k < r1.len() - 1 {
                assert(d1[k] == r1[k]);
                assert(d2[k] == r2[k]);
            }
        }
    }
}

/// Only one list holds, for each identifier of `items`, the first entry
/// that has it, in the order of the identifiers.
pub proof fn law_sorted_union_is_unique(
    r1: Seq<InstalledUpdateView>,
    r2: Seq<InstalledUpdateView>,
    items: Seq<InstalledUpdateView>,
)
    requires
        is_sorted_union(r1, items),
        is_sorted_union(r2, items),
    ensures
        r1 == r2,
{
    assert forall|k: int| 0 <= k < r1.len() implies holds_key(
        r2,
        kb_key(),
        (#[trigger] r1[k]).kb_id,
    ) by {
        assert(is_first_entry(items, r1[k]));
        let j = choose|j: int| is_first_of_kb(items, j) && #[trigger] items[j] == r1[k];
        assert(holds_key(r2, kb_key(), items[j].kb_id));
    }
    assert forall|k: int| 0 <= k < r2.len() implies holds_key(
        r1,
        kb_key(),
        (#[trigger] r2[k]).kb_id,
    ) by {
        assert(is_first_entry(items, r2[k]));
        let j = choose|j: int| is_first_of_kb(items, j) && #[trigger] items[j] == r2[k];
        assert(holds_key(r1, kb_key(), items[j].kb_id));
    }
    lemma_sorted_same_keys(r1, r2);
    assert forall|k: int| 0 <= k < r1.len() implies r1[k] == r2[k] by {
        assert(is_first_entry(items, r1[k]));
        assert(is_first_entry(items, r2[k]));
        lemma_first_entry_by_kb(items, r1[k], r2[k]);
    }
    assert(r1 =~= r2);
}

proof fn lemma_sorted_insert(s: Seq<InstalledUpdateView>, p: int, x: InstalledUpdateView)
    requires
        sorted_by_kb(s),
        0 <= p <= s.len(),
        forall|i: int| 0 <= i < p ==> text_before((#[trigger] s[i]).kb_id, x.kb_id),
        p < s.len() ==> text_before(x.kb_id, s[p].kb_id),
    ensures
        sorted_by_kb(s.insert(p, x)),
        !holds_key(s, kb_key(), x.kb_id),
{
    let t = s.insert(p, x);
    assert forall|j: int| p <= j < s.len() implies text_before(x.kb_id, (#[trigger] s[j]).kb_id) by {
        if j > p {
            lemma_before_transitive(x.kb_id, s[p].kb_id, s[j].kb_id);
        }
    }
    assert forall|i: int, j: int| 0 <= i < j < t.len() implies text_before(
        (#[trigger] t[i]).kb_id,
        (#[trigger] t[j]).kb_id,
    ) by {
        if i < p {
            assert(t[i] == s[i]);
        } else if i > p {
            assert(t[i] == s[i - 1]);
        }
        if j < p {
            assert(t[j] == s[j]);
        } else if j > p {
            assert(t[j] == s[j - 1]);
        }
    }
    assert forall|i: int| 0 <= i < s.len() implies kb_key()(#[trigger] s[i]) != x.kb_id by {
        if i < p {
            lemma_before_trichotomy(s[i].kb_id, x.kb_id);
        } else {
            lemma_before_trichotomy(x.kb_id, s[i].kb_id);
        }
    }
}

/// For each identifier the first of `items` that has it, in the order of
/// the identifiers.
pub fn sort_unique(items: &Vec<InstalledUpdateInfo>) -> (r: Vec<InstalledUpdateInfo>)
    ensures
        is_sorted_union(views(r@), views(items@)),
{
    let ghost all = views(items@);
    let mut r: Vec<InstalledUpdateInfo> = Vec::new();
    let mut i: usize = 0;
    while i < items.len()
        invariant
            i <= items.len(),
            all == views(items@),
            sorted_by_kb(views(r@)),
            forall|k: int| 0 <= k < r@.len() ==> is_first_entry(all, #[trigger] views(r@)[k]),
            forall|j: int|
                0 <= j < i ==> holds_key(views(r@), kb_key(), (#[trigger] all[j]).kb_id),
        decreases items.len() - i,
    {
        let item = &items[i];
        let ghost x = item@;
        let ghost before = views(r@);
        assert(all[i as int] == x);
        let mut p: usize = 0;
        while p < r.len() && comes_before(r[p].kb_id.as_str(), item.kb_id.as_str())
            invariant
                p <= r.len(),
                before == views(r@),
                x == item@,
                forall|k: int| 0 <= k < p ==> text_before((#[trigger] before[k]).kb_id, x.kb_id),
            decreases r.len() - p,
        {
            assert(before[p as int] == r@[p as int]@);
            p += 1;
        }
        let same = p < r.len() && same_text(r[p].kb_id.as_str(), item.kb_id.as_str());
        if same {
            assert(before[p as int] == r@[p as int]@);
            assert(kb_key()(before[p as int]) == x.kb_id);
            assert forall|j: int| 0 <= j < i + 1 implies holds_key(
                views(r@),
                kb_key(),
                (#[trigger] all[j]).kb_id,
            ) by {
                if j == i {
                    assert(holds_key(before, kb_key(), x.kb_id));
                }
            }
        } else {
            proof {
                if p < r.len() {
                    assert(before[p as int] == r@[p as int]@);
                    lemma_before_trichotomy(before[p as int].kb_id, x.kb_id);
                }
                lemma_sorted_insert(before, p as int, x);
            }
            r.insert(p, item.copy());
            let ghost after = views(r@);
            assert(after =~= before.insert(p as int, x));
            assert forall|k: int| 0 <= k < after.len() implies is_first_entry(
                all,
                #[trigger] after[k],
            ) by {
                if k < p {
                    assert(after[k] == before[k]);
                } else if k > p {
                    assert(after[k] == before[k - 1]);
                } else {
                    assert forall|e: int| 0 <= e < i implies (#[trigger] all[e]).kb_id
                        != x.kb_id by {
                        assert(holds_key(before, kb_key(), all[e].kb_id));
                    }
                    assert(is_first_of_kb(all, i as int));
                    assert(all[i as int] == after[k]);
                }
            }
            assert forall|j: int| 0 <= j < i + 1 implies holds_key(
                after,
                kb_key(),
                (#[trigger] all[j]).kb_id,
            ) by {
                if j == i {
                    assert(kb_key()(after[p as int]) == x.kb_id);
                } else {
                    let k = choose|k: int|
                        0 <= k < before.len() && kb_key()(#[trigger] before[k]) == all[j].kb_id;
                    if k < p {
                        assert(after[k] == before[k]);
                    } else {
                        assert(after[k + 1] == before[k]);
                    }
                }
            }
        }
        i += 1;
    }
    r
}

// ---------------------------------------------------------------------------
// Listing the installed updates
// ---------------------------------------------------------------------------

/// Asks the update module for the history of installed updates.
pub const HISTORY_SCRIPT: &'static str = r#"
    try {
        # Vérifier si PSWindowsUpdate est disponible
        if (Get-Module -ListAvailable -Name PSWindowsUpdate) {
            Import-Module PSWindowsUpdate -Force -ErrorAction Stop
            
            # Obtenir l'historique des mises à jour avec PSWindowsUpdate
            $history = Get-WUHistory | Where-Object { $_.Operation -eq 'Installation' -and $_.Result -eq 'Succeeded' }
            
            $normalizedHistory = $history | ForEach-Object {
                $kbMatch = $null
                if ($_.Title -match 'KB(\d+)') {
                    $kbMatch = "KB" + $matches[1]
                } elseif ($_.KB) {
                    $kbMatch = $_.KB
                } else {
                    $kbMatch = "N/A"
                }
                
                [PSCustomObject]@{
                    Title = if ($_.Title) { $_.Title.ToString() } else { "Mise à jour sans titre" }
                    Date = if ($_.Date) { $_.Date.ToString("yyyy-MM-ddTHH:mm:ss") } else { "N/A" }
                    Operation = if ($_.Operation) { $_.Operation.ToString() } else { "Installation" }
                    Result = if ($_.Result) { $_.Result.ToString() } else { "Succeeded" }
                    KB = $kbMatch
                    Size = if ($_.Size) { $_.Size.ToString() } else { "0" }
                    Description = if ($_.Description) { $_.Description.ToString() } else { $_.Title }
                }
            }
            
            $normalizedHistory | ConvertTo-Json -Compress
        } else {
            Write-Output "PSWindowsUpdate_NOT_AVAILABLE"
        }
    } catch {
        Write-Output "PSWindowsUpdate_ERROR: $($_.Exception.Message)"
    }
    "#;

/// Lists the hotfixes that the system records.
pub const HOTFIXES_SCRIPT: &'static str = r#"
        try {
            $hotfixes = Get-WmiObject -Class Win32_QuickFixEngineering | Where-Object { $_.HotFixID -ne $null }
            
            $normalizedHotfixes = $hotfixes | ForEach-Object {
                $installedOn = "N/A"
                if ($_.InstalledOn) {
                    try {
                        $installedOn = ([DateTime]$_.InstalledOn).ToString("yyyy-MM-ddTHH:mm:ss")
                    } catch {
                        $installedOn = $_.InstalledOn.ToString()
                    }
                }
                
                [PSCustomObject]@{
                    HotFixID = $_.HotFixID
                    Description = if ($_.Description) { $_.Description } else { "Hotfix Windows" }
                    InstalledBy = if ($_.InstalledBy) { $_.InstalledBy } else { "Système" }
                    InstalledOn = $installedOn
                }
            }
            
            $normalizedHotfixes | ConvertTo-Json -Compress
        } catch {
            Write-Error $_.Exception.Message
            exit 1
        }
        "#;

/// Reads the time of the last installation from the registry.
pub const LAST_INSTALL_SCRIPT: &'static str = r#"
    try {
        $regPath = "HKLM:\SOFTWARE\Microsoft\Windows\CurrentVersion\WindowsUpdate\Auto Update\Results\Install"
        if (Test-Path $regPath) {
            $regData = Get-ItemProperty -Path $regPath -ErrorAction SilentlyContinue
            if ($regData) {
                $lastSuccess = $regData.LastSuccessTime
                if ($lastSuccess) {
                    [PSCustomObject]@{
                        HotFixID = "REG-LastInstall"
                        Description = "Dernière installation Windows Update"
                        InstalledBy = "Windows Update Service"
                        InstalledOn = $lastSuccess
                    } | ConvertTo-Json -Compress
                }
            }
        }
    } catch {
        Write-Output ""
    }
    "#;

/// Reads the installations from the event log of the update client.
pub const UPDATE_EVENTS_SCRIPT: &'static str = r#"
    try {
        $events = Get-WinEvent -LogName 'Microsoft-Windows-WindowsUpdateClient/Operational' -MaxEvents 300 |
                  Where-Object { $_.Id -in 19,44,46 }   # 19 = install OK, 44/46 = début / succès

        $normalized = $events | ForEach-Object {
            $kb = ""
            if ($_.Message -match 'KB\d+') { $kb = $matches[0] }

            [PSCustomObject]@{
                HotFixID    = if ($kb) { $kb } else { 'EVT-' + $_.Id }
                Description = ($_.Message -replace '\s+', ' ').Trim()
                InstalledBy = 'Windows Update Client'
                InstalledOn = $_.TimeCreated.ToString('yyyy-MM-ddTHH:mm:ss')
            }
        }

        $normalized | ConvertTo-Json -Compress
    } catch {
        Write-Output ''
    }
    "#;

/// Searches the updates on offer.
pub const SEARCH_UPDATES_SCRIPT: &'static str = r#"
    $ProgressPreference = 'SilentlyContinue'
    try {
        $updates = Get-WindowsUpdate -MicrosoftUpdate -ErrorAction Stop | Where-Object { $_.IsInstalled -eq $false }
        
        # Normaliser les données avant conversion JSON
        $normalizedUpdates = $updates | ForEach-Object {
            $sizeBytes = 0
            if ($_.Size -ne $null) {
                if ($_.Size -is [string]) {
                    # Traiter les tailles sous forme de chaîne
                    $sizeStr = $_.Size.ToString().ToUpper()
                    if ($sizeStr -match "(\d+(?:\.\d+)?)\s*(KB|MB|GB|TB|BYTES?)") {
                        $number = [double]$matches[1]
                        $unit = $matches[2]
                        switch ($unit) {
                            "KB" { $sizeBytes = [long]($number * 1024) }
                            "MB" { $sizeBytes = [long]($number * 1024 * 1024) }
                            "GB" { $sizeBytes = [long]($number * 1024 * 1024 * 1024) }
                            "TB" { $sizeBytes = [long]($number * 1024 * 1024 * 1024 * 1024) }
                            default { $sizeBytes = [long]$number }
                        }
                    } else {
                        $sizeBytes = 0
                    }
                } else {
                    $sizeBytes = [long]$_.Size
                }
            }
            
            [PSCustomObject]@{
                Title = if ($_.Title) { $_.Title.ToString() } else { "" }
                KB = if ($_.KB) { $_.KB.ToString() } else { "" }
                Size = $sizeBytes
                IsDownloaded = [bool]$_.IsDownloaded
                IsInstalled = [bool]$_.IsInstalled
            }
        }
        
        $normalizedUpdates | ConvertTo-Json -Compress
    } catch {
        Write-Error $_.Exception.Message
        exit 1
    }
    "#;

/// Asks whether the antivirus definitions are older than a day.
pub const DEFENDER_OFFER_SCRIPT: &'static str = r#"
    try {
        $defender = Get-MpComputerStatus -ErrorAction Stop
        if ($defender) {
            $lastUpdate = $defender.AntivirusSignatureLastUpdated
            $currentVersion = $defender.AntispywareSignatureVersion
            
            # Vérifier si une mise à jour est nécessaire (plus de 1 jour)
            $needsUpdate = $false
            if ($lastUpdate) {
                $needsUpdate = $lastUpdate -lt (Get-Date).AddDays(-1)
            } else {
                $needsUpdate = $true
            }
            
            if ($needsUpdate) {
                $defenderUpdate = @{
                    Title = "Security Intelligence Update for Microsoft Defender Antivirus - KB2267602"
                    KB = "KB2267602"
                    Size = 15728640
                    IsDownloaded = $false
                    IsInstalled = $false
                }
                ConvertTo-Json -InputObject $defenderUpdate -Compress
            } else {
                Write-Output ""
            }
        }
    } catch {
        Write-Output ""
    }
    "#;

/// Installs all updates on offer.
pub const INSTALL_UPDATES_SCRIPT: &'static str = r#"
    $ProgressPreference = 'SilentlyContinue'
    try {
        Import-Module PSWindowsUpdate -Force -ErrorAction Stop
        $result = Install-WindowsUpdate -MicrosoftUpdate -AcceptAll -IgnoreReboot -Confirm:$false -ErrorAction Stop
        if ($result) {
            $result | Select-Object Title, Result, Size | ConvertTo-Json -Compress
        } else {
            Write-Output "Aucune mise à jour à installer ou installation terminée."
        }
    } catch {
        Write-Error $_.Exception.Message
        exit 1
    }
    "#;

pub const MARK_NOT_AVAILABLE: &'static str = "PSWindowsUpdate_NOT_AVAILABLE";

pub const MARK_ERROR: &'static str = "PSWindowsUpdate_ERROR";

/// How far the search for installed updates has come.
#[derive(Debug)]
pub struct InstalledSearch {
    /// The source that is being asked: 0 the update history, 1 the
    /// recorded hotfixes, 2 the registry, 3 the event log.
    pub stage: usize,
    pub gathered: Vec<InstalledUpdateInfo>,
}

/// What the search for installed updates does next.
pub enum InstalledAdvance {
    Go { stage: int, gathered: Seq<InstalledUpdateView>, command: InvocationView },
    /// The search is over; the result holds one entry for each identifier
    /// among the updates given here.
    Stop(Seq<InstalledUpdateView>),
}

/// What the update history gave, where it can serve: the tool ran and
/// reported success, its output holds neither of the two marks of failure,
/// can be read, and holds an entry at least.
pub open spec fn history_updates(outcome: Result<ExecutionResult, ErrorKind>) -> Option<
    Seq<InstalledUpdateView>,
> {
    match outcome {
        Ok(raw) => {
            let out = utf8_lossy(raw.stdout@);
            if raw.exit_success && !contains(out, MARK_NOT_AVAILABLE@) && !contains(
                out,
                MARK_ERROR@,
            ) {
                match typed_output::<HistoryEntry>(out) {
                    Some(entries) => if entries.len() > 0 {
                        Some(entries)
                    } else {
                        None
                    },
                    None => None,
                }
            } else {
                None
            }
        },
        Err(_) => None,
    }
}

/// What the output of a source holds; nothing where it cannot be read.
pub open spec fn updates_in_output(out: Seq<char>) -> Seq<InstalledUpdateView> {
    match typed_output::<InstalledUpdateInfo>(out) {
        Some(updates) => updates,
        None => Seq::empty(),
    }
}

/// What a source gave that may fail without harm: what its output holds
/// where the tool ran and reported success, nothing otherwise.
pub open spec fn optional_updates(outcome: Result<ExecutionResult, ErrorKind>) -> Seq<
    InstalledUpdateView,
> {
    match outcome {
        Ok(raw) => if raw.exit_success {
            updates_in_output(utf8_lossy(raw.stdout@))
        } else {
            Seq::empty()
        },
        Err(_) => Seq::empty(),
    }
}

/// The next step of the search. The hotfixes are asked for only where
/// the history cannot serve. Every source may fail without harm: what it
/// would have given is missing, and the sources after it are still asked.
pub open spec fn installed_advance(
    stage: int,
    gathered: Seq<InstalledUpdateView>,
    outcome: Result<ExecutionResult, ErrorKind>,
) -> InstalledAdvance {
    if stage == 0 {
        match history_updates(outcome) {
            Some(entries) => InstalledAdvance::Go {
                stage: 2,
                gathered: gathered + entries,
                command: powershell_bypass(LAST_INSTALL_SCRIPT@),
            },
            None => InstalledAdvance::Go {
                stage: 1,
                gathered,
                command: powershell_bypass(HOTFIXES_SCRIPT@),
            },
        }
    } else if stage == 1 {
        InstalledAdvance::Go {
            stage: 2,
            gathered: gathered + optional_updates(outcome),
            command: powershell_bypass(LAST_INSTALL_SCRIPT@),
        }
    } else if stage == 2 {
        InstalledAdvance::Go {
            stage: 3,
            gathered: gathered + optional_updates(outcome),
            command: powershell_bypass(UPDATE_EVENTS_SCRIPT@),
        }
    } else {
        InstalledAdvance::Stop(gathered + optional_updates(outcome))
    }
}

/// Whether a step is the one that `advance` describes.
pub open spec fn installed_step_is(
    step: Step<InstalledSearch, Vec<InstalledUpdateInfo>>,
    advance: InstalledAdvance,
) -> bool {
    match advance {
        InstalledAdvance::Go { stage, gathered, command } => {
            &&& step matches Step::Run(search, invocation)
            &&& search.stage == stage
            &&& views(search.gathered@) == gathered
            &&& invocation@ == command
        },
        InstalledAdvance::Stop(items) => {
            &&& step matches Step::Done(v)
            &&& is_sorted_union(views(v@), items)
        },
    }
}

/// The search for installed updates before anything was asked, and the
/// command that asks for the update history.
pub fn list_installed_updates_begin() -> (r: (InstalledSearch, Invocation))
    ensures
        r.0.stage == 0,
        r.0.gathered@.len() == 0,
        r.1@ == powershell_bypass(HISTORY_SCRIPT@),
{
    (
        InstalledSearch { stage: 0, gathered: Vec::new() },
        Invocation::powershell_bypass(String::from_str(HISTORY_SCRIPT)),
    )
}

fn read_history(outcome: &Result<ExecutionResult, ErrorKind>) -> (r: Option<Vec<HistoryEntry>>)
    ensures
        match r {
            Some(entries) => history_updates(*outcome) == Some(views(entries@)),
            None => history_updates(*outcome) is None,
        },
{
    match outcome {
        Ok(raw) => {
            if !raw.exit_success {
                return None;
            }
            let out = raw.stdout_text();
            let chars = chars_of(out.as_str());
            if includes(&chars, &chars_of(MARK_NOT_AVAILABLE)) || includes(
                &chars,
                &chars_of(MARK_ERROR),
            ) {
                return None;
            }
            match read_output::<HistoryEntry>(out.as_str()) {
                Some(entries) => if entries.len() > 0 {
                    Some(entries)
                } else {
                    None
                },
                None => None,
            }
        },
        Err(_) => None,
    }
}

fn read_updates(out: &str) -> (r: Vec<InstalledUpdateInfo>)
    ensures
        views(r@) == updates_in_output(out@),
{
    match read_output::<InstalledUpdateInfo>(out) {
        Some(updates) => updates,
        None => {
            let r: Vec<InstalledUpdateInfo> = Vec::new();
            assert(views(r@) =~= Seq::<InstalledUpdateView>::empty());
            r
        },
    }
}

fn read_optional_updates(outcome: &Result<ExecutionResult, ErrorKind>) -> (r: Vec<
    InstalledUpdateInfo,
>)
    ensures
        views(r@) == optional_updates(*outcome),
{
    match outcome {
        Ok(raw) => if raw.exit_success {
            let out = raw.stdout_text();
            read_updates(out.as_str())
        } else {
            let r: Vec<InstalledUpdateInfo> = Vec::new();
            assert(views(r@) =~= Seq::<InstalledUpdateView>::empty());
            r
        },
        Err(_) => {
            let r: Vec<InstalledUpdateInfo> = Vec::new();
            assert(views(r@) =~= Seq::<InstalledUpdateView>::empty());
            r
        },
    }
}

/// The next step of the search for installed updates, given what the run
/// that the last step asked for came to.
pub fn list_installed_updates_resume(
    search: InstalledSearch,
    outcome: Result<ExecutionResult, ErrorKind>,
) -> (r: Step<InstalledSearch, Vec<InstalledUpdateInfo>>)
    ensures
        installed_step_is(
            r,
            installed_advance(search.stage as int, views(search.gathered@), outcome),
        ),
{
    let stage = search.stage;
    let mut gathered = search.gathered;
    if stage == 0 {
        match read_history(&outcome) {
            Some(entries) => {
                gather_entries(&mut gathered, &entries);
                Step::Run(
                    InstalledSearch { stage: 2, gathered },
                    Invocation::powershell_bypass(String::from_str(LAST_INSTALL_SCRIPT)),
                )
            },
            None => Step::Run(
                InstalledSearch { stage: 1, gathered },
                Invocation::powershell_bypass(String::from_str(HOTFIXES_SCRIPT)),
            ),
        }
    } else if stage == 1 {
        let updates = read_optional_updates(&outcome);
        gather_updates(&mut gathered, &updates);
        Step::Run(
            InstalledSearch { stage: 2, gathered },
            Invocation::powershell_bypass(String::from_str(LAST_INSTALL_SCRIPT)),
        )
    } else if stage == 2 {
        let updates = read_optional_updates(&outcome);
        gather_updates(&mut gathered, &updates);
        Step::Run(
            InstalledSearch { stage: 3, gathered },
            Invocation::powershell_bypass(String::from_str(UPDATE_EVENTS_SCRIPT)),
        )
    } else {
        let updates = read_optional_updates(&outcome);
        gather_updates(&mut gathered, &updates);
        Step::Done(sort_unique(&gathered))
    }
}

// ---------------------------------------------------------------------------
// Updates on offer
// ---------------------------------------------------------------------------

#[derive(Debug)]
pub struct AvailableUpdateInfo {
    pub title: String,
    pub kb_id: String,
    /// The size of the download in bytes.
    pub size: u64,
    pub is_downloaded: bool,
    pub is_installed: bool,
}

pub struct AvailableUpdateView {
    pub title: Seq<char>,
    pub kb_id: Seq<char>,
    pub size: u64,
    pub is_downloaded: bool,
    pub is_installed: bool,
}

impl View for AvailableUpdateInfo {
    type V = AvailableUpdateView;

    open spec fn view(&self) -> AvailableUpdateView {
        AvailableUpdateView {
            title: self.title@,
            kb_id: self.kb_id@,
            size: self.size,
            is_downloaded: self.is_downloaded,
            is_installed: self.is_installed,
        }
    }
}

/// An update as the search reports it.
#[derive(Debug)]
pub struct OfferedUpdate {
    pub title: Option<String>,
    pub kb: Option<String>,
    pub size: Option<u64>,
    pub is_downloaded: Option<bool>,
}

pub struct OfferedUpdateView {
    pub title: Option<Seq<char>>,
    pub kb: Option<Seq<char>>,
    pub size: Option<u64>,
    pub is_downloaded: Option<bool>,
}

impl View for OfferedUpdate {
    type V = OfferedUpdateView;

    open spec fn view(&self) -> OfferedUpdateView {
        OfferedUpdateView {
            title: match self.title {
                Some(t) => Some(t@),
                None => None,
            },
            kb: match self.kb {
                Some(t) => Some(t@),
                None => None,
            },
            size: self.size,
            is_downloaded: self.is_downloaded,
        }
    }
}

/// The size that a record gives: an integer as a number of bytes, a text
/// as a size with its unit, nothing where the member is absent or null,
/// and zero for anything else.
pub open spec fn size_at(tree: JsonTree) -> Option<u64> {
    match tree.field("Size"@) {
        None => None,
        Some(JsonTree::Null) => None,
        Some(JsonTree::Integer(i)) => Some(
            if 0 <= i <= u64::MAX {
                i as u64
            } else {
                0
            },
        ),
        Some(JsonTree::Text(t)) => Some(capped(size_in_bytes(t))),
        Some(_) => Some(0),
    }
}

pub fn size_field(value: &JsonValue) -> (r: Option<u64>)
    ensures
        r == size_at(value@),
{
    match value.get("Size") {
        None => None,
        Some(v) => match v {
            JsonValue::Null => None,
            JsonValue::Integer(i) => Some(
                if 0 <= *i && *i <= 0xFFFF_FFFF_FFFF_FFFF {
                    *i as u64
                } else {
                    0
                },
            ),
            JsonValue::Text(t) => Some(parse_size_string(t.as_str())),
            _ => Some(0),
        },
    }
}

impl Record for OfferedUpdate {
    /// Any object is an offer.
    open spec fn mapped(tree: JsonTree) -> Option<OfferedUpdateView> {
        if tree is Object {
            Some(
                OfferedUpdateView {
                    title: text_at(tree, "Title"@),
                    kb: first_text_at(tree, seq!["KB"@, "Kb"@]),
                    size: size_at(tree),
                    is_downloaded: bool_at(tree, "IsDownloaded"@),
                },
            )
        } else {
            None
        }
    }

    fn map(value: &JsonValue) -> (r: Option<OfferedUpdate>) {
        if !value.is_object() {
            return None;
        }
        let names = ["KB", "Kb"];
        assert(views(names@) =~= seq!["KB"@, "Kb"@]);
        Some(
            OfferedUpdate {
                title: text_field(value, "Title"),
                kb: first_text_field(value, &names),
                size: size_field(value),
                is_downloaded: bool_field(value, "IsDownloaded"),
            },
        )
    }
}

pub const UNTITLED: &'static str = "Mise à jour sans titre";

pub const DEFENDER_KB: &'static str = "KB2267602";

/// The size that is assumed for the antivirus definitions.
pub const DEFENDER_SIZE: u64 = 15728640;

/// The update that an offer of the search stands for; none for an offer
/// with neither title nor identifier.
pub open spec fn offer_of(offered: OfferedUpdateView) -> Option<AvailableUpdateView> {
    if offered.title is Some || offered.kb is Some {
        Some(
            AvailableUpdateView {
                title: match offered.title {
                    Some(t) => t,
                    None => UNTITLED@,
                },
                kb_id: match offered.kb {
                    Some(k) => k,
                    None => NOT_AVAILABLE@,
                },
                size: match offered.size {
                    Some(s) => s,
                    None => 0,
                },
                is_downloaded: match offered.is_downloaded {
                    Some(b) => b,
                    None => false,
                },
                is_installed: false,
            },
        )
    } else {
        None
    }
}

/// The update that an offer of antivirus definitions stands for; none for
/// an offer without title.
pub open spec fn defender_offer_of(offered: OfferedUpdateView) -> Option<AvailableUpdateView> {
    match offered.title {
        Some(title) => Some(
            AvailableUpdateView {
                title,
                kb_id: match offered.kb {
                    Some(k) => k,
                    None => DEFENDER_KB@,
                },
                size: match offered.size {
                    Some(s) => s,
                    None => DEFENDER_SIZE,
                },
                is_downloaded: match offered.is_downloaded {
                    Some(b) => b,
                    None => false,
                },
                is_installed: false,
            },
        ),
        None => None,
    }
}

/// The updates that the offers stand for, in order; `defender` says
/// whether they are offers of antivirus definitions.
pub open spec fn offers_of(offered: Seq<OfferedUpdateView>, defender: bool) -> Seq<
    AvailableUpdateView,
>
    decreases offered.len(),
{
    if offered.len() == 0 {
        Seq::empty()
    } else {
        let init = offers_of(offered.drop_last(), defender);
        let offer = if defender {
            defender_offer_of(offered.last())
        } else {
            offer_of(offered.last())
        };
        match offer {
            Some(update) => init.push(update),
            None => init,
        }
    }
}

fn offer(offered: &OfferedUpdate, defender: bool) -> (r: Option<AvailableUpdateInfo>)
    ensures
        match r {
            Some(update) => (if defender {
                defender_offer_of(offered@)
            } else {
                offer_of(offered@)
            }) == Some(update@),
            None => (if defender {
                defender_offer_of(offered@)
            } else {
                offer_of(offered@)
            }) is None,
        },
{
    if defender {
        if offered.title.is_none() {
            return None;
        }
    } else if offered.title.is_none() && offered.kb.is_none() {
        return None;
    }
    Some(
        AvailableUpdateInfo {
            title: match &offered.title {
                Some(t) => t.clone(),
                None => String::from_str(UNTITLED),
            },
            kb_id: match &offered.kb {
                Some(k) => k.clone(),
                None => String::from_str(
                    if defender {
                        DEFENDER_KB
                    } else {
                        NOT_AVAILABLE
                    },
                ),
            },
            size: match offered.size {
                Some(s) => s,
                None => if defender {
                    DEFENDER_SIZE
                } else {
                    0
                },
            },
            is_downloaded: match offered.is_downloaded {
                Some(b) => b,
                None => false,
            },
            is_installed: false,
        },
    )
}

/// What a source of offers gave: the offers in its output where the tool
/// ran, reported success and wrote what can be read; nothing otherwise.
pub open spec fn optional_offers(outcome: Result<ExecutionResult, ErrorKind>, defender: bool) -> Seq<
    AvailableUpdateView,
> {
    match outcome {
        Ok(raw) => if raw.exit_success {
            match typed_output::<OfferedUpdate>(utf8_lossy(raw.stdout@)) {
                Some(offered) => offers_of(offered, defender),
                None => Seq::empty(),
            }
        } else {
            Seq::empty()
        },
        Err(_) => Seq::empty(),
    }
}

/// Adds to `gathered` what a source of offers gave.
fn gather_offers(
    gathered: &mut Vec<AvailableUpdateInfo>,
    outcome: &Result<ExecutionResult, ErrorKind>,
    defender: bool,
)
    ensures
        views(final(gathered)@) == views(old(gathered)@) + optional_offers(*outcome, defender),
{
    let ghost start = views(gathered@);
    assert(start + Seq::<AvailableUpdateView>::empty() =~= start);
    match outcome {
        Ok(raw) => if raw.exit_success {
            let out = raw.stdout_text();
            match read_output::<OfferedUpdate>(out.as_str()) {
                Some(offered) => {
                    let ghost all = views(offered@);
                    let mut i: usize = 0;
                    while i < offered.len()
                        invariant
                            i <= offered.len(),
                            all == views(offered@),
                            views(gathered@) == start + offers_of(
                                all.subrange(0, i as int),
                                defender,
                            ),
                        decreases offered.len() - i,
                    {
                        proof {
                            let next = all.subrange(0, i + 1);
                            assert(next.drop_last() == all.subrange(0, i as int));
                            assert(next.last() == offered@[i as int]@);
                        }
                        match offer(&offered[i], defender) {
                            Some(update) => {
                                let ghost before = views(gathered@);
                                gathered.push(update);
                                assert(views(gathered@) =~= before.push(
                                    gathered@[gathered.len() - 1]@,
                                ));
                                assert(views(gathered@) =~= start + offers_of(
                                    all.subrange(0, i + 1),
                                    defender,
                                ));
                            },
                            None => {},
                        }
                        i += 1;
                    }
                    assert(all.subrange(0, offered.len() as int) == all);
                },
                None => {},
            }
        },
        Err(_) => {},
    }
}

pub const MODULE_CHECK: &'static str =
    "Get-Module -ListAvailable -Name PSWindowsUpdate | Select-Object -First 1";

pub const MODULE_IMPORT: &'static str =
    "Import-Module PSWindowsUpdate -Force -ErrorAction Stop; Write-Output 'Module imported successfully'";

pub const CANNOT_FIND: &'static str = "Cannot find";

pub const MODULE_MISSING: &'static str =
    "Le module PowerShell 'PSWindowsUpdate' n'est pas installé. Cliquez sur 'Installer le module' pour l'installer automatiquement.";

pub const IMPORT_FAILED: &'static str =
    "Impossible d'importer le module PSWindowsUpdate. Erreur: ";

/// How far the search for updates on offer has come.
#[derive(Debug)]
pub struct OfferSearch {
    /// What is being run: 0 the check for the update module, 1 its
    /// import, 2 the search, 3 the question about antivirus definitions.
    pub stage: usize,
    pub gathered: Vec<AvailableUpdateInfo>,
}

/// What the search for updates on offer does next.
pub enum OfferAdvance {
    Go { stage: int, gathered: Seq<AvailableUpdateView>, command: InvocationView },
    Stop(Result<Seq<AvailableUpdateView>, ErrorView>),
}

/// The next step of the search. The update module is a prerequisite: the
/// search ends at once where it is missing or cannot be imported. After
/// that each of the two sources of offers may fail without harm: a source
/// that cannot be run, fails or writes what cannot be read gives no offer,
/// and the other is still asked.
pub open spec fn offer_advance(
    stage: int,
    gathered: Seq<AvailableUpdateView>,
    outcome: Result<ExecutionResult, ErrorKind>,
) -> OfferAdvance {
    if stage == 0 {
        match outcome {
            Err(e) => OfferAdvance::Stop(Err(e@)),
            Ok(raw) => if is_blank(utf8_lossy(raw.stdout@)) || contains(
                utf8_lossy(raw.stdout@),
                CANNOT_FIND@,
            ) {
                OfferAdvance::Stop(Err(ErrorView::Unavailable { detail: MODULE_MISSING@ }))
            } else {
                OfferAdvance::Go {
                    stage: 1,
                    gathered,
                    command: powershell_bypass(MODULE_IMPORT@),
                }
            },
        }
    } else if stage == 1 {
        match outcome {
            Err(e) => OfferAdvance::Stop(Err(e@)),
            Ok(raw) => if !raw.exit_success {
                OfferAdvance::Stop(
                    Err(
                        ErrorView::Unavailable {
                            detail: IMPORT_FAILED@ + utf8_lossy(raw.stderr@),
                        },
                    ),
                )
            } else {
                OfferAdvance::Go {
                    stage: 2,
                    gathered,
                    command: powershell_bypass(SEARCH_UPDATES_SCRIPT@),
                }
            },
        }
    } else if stage == 2 {
        OfferAdvance::Go {
            stage: 3,
            gathered: gathered + optional_offers(outcome, false),
            command: powershell_bypass(DEFENDER_OFFER_SCRIPT@),
        }
    } else {
        OfferAdvance::Stop(Ok(gathered + optional_offers(outcome, true)))
    }
}

/// Whether a step is the one that `advance` describes.
pub open spec fn offer_step_is(
    step: Step<OfferSearch, Result<Vec<AvailableUpdateInfo>, ErrorKind>>,
    advance: OfferAdvance,
) -> bool {
    match advance {
        OfferAdvance::Go { stage, gathered, command } => {
            &&& step matches Step::Run(search, invocation)
            &&& search.stage == stage
            &&& views(search.gathered@) == gathered
            &&& invocation@ == command
        },
        OfferAdvance::Stop(Ok(items)) => {
            &&& step matches Step::Done(Ok(v))
            &&& views(v@) == items
        },
        OfferAdvance::Stop(Err(e)) => {
            &&& step matches Step::Done(Err(err))
            &&& err@ == e
        },
    }
}

/// The search for updates on offer before anything was run, and the
/// command that checks for the update module.
pub fn search_available_updates_begin() -> (r: (OfferSearch, Invocation))
    ensures
        r.0.stage == 0,
        r.0.gathered@.len() == 0,
        r.1@ == powershell_bypass(MODULE_CHECK@),
{
    (
        OfferSearch { stage: 0, gathered: Vec::new() },
        Invocation::powershell_bypass(String::from_str(MODULE_CHECK)),
    )
}

/// The next step of the search for updates on offer, given what the run
/// that the last step asked for came to.
pub fn search_available_updates_resume(
    search: OfferSearch,
    outcome: Result<ExecutionResult, ErrorKind>,
) -> (r: Step<OfferSearch, Result<Vec<AvailableUpdateInfo>, ErrorKind>>)
    ensures
        offer_step_is(r, offer_advance(search.stage as int, views(search.gathered@), outcome)),
{
    let stage = search.stage;
    let mut gathered = search.gathered;
    if stage == 0 {
        match outcome {
            Err(e) => Step::Done(Err(e)),
            Ok(raw) => {
                let out = chars_of(raw.stdout_text().as_str());
                if blank(&out) || includes(&out, &chars_of(CANNOT_FIND)) {
                    Step::Done(Err(ErrorKind::unavailable(MODULE_MISSING)))
                } else {
                    Step::Run(
                        OfferSearch { stage: 1, gathered },
                        Invocation::powershell_bypass(String::from_str(MODULE_IMPORT)),
                    )
                }
            },
        }
    } else if stage == 1 {
        match outcome {
            Err(e) => Step::Done(Err(e)),
            Ok(raw) => if !raw.exit_success {
                Step::Done(
                    Err(
                        ErrorKind::Unavailable {
                            detail: String::from_str(IMPORT_FAILED).concat(
                                raw.stderr_text().as_str(),
                            ),
                        },
                    ),
                )
            } else {
                Step::Run(
                    OfferSearch { stage: 2, gathered },
                    Invocation::powershell_bypass(String::from_str(SEARCH_UPDATES_SCRIPT)),
                )
            },
        }
    } else if stage == 2 {
        gather_offers(&mut gathered, &outcome, false);
        Step::Run(
            OfferSearch { stage: 3, gathered },
            Invocation::powershell_bypass(String::from_str(DEFENDER_OFFER_SCRIPT)),
        )
    } else {
        gather_offers(&mut gathered, &outcome, true);
        Step::Done(Ok(gathered))
    }
}

// ---------------------------------------------------------------------------
// Installing
// ---------------------------------------------------------------------------

pub const UPDATE_DEFINITIONS: &'static str = "Update-MpSignature -Verbose | Out-String";

pub const DEFINITIONS_UPDATED: &'static str =
    "Mise à jour des définitions de Microsoft Defender réussie:\n";

/// The command that updates the antivirus definitions.
pub fn install_defender_updates_command() -> (r: Invocation)
    ensures
        r@ == powershell_bypass(UPDATE_DEFINITIONS@),
{
    Invocation::powershell_bypass(String::from_str(UPDATE_DEFINITIONS))
}

/// What updating the antivirus definitions came to.
pub fn install_defender_updates_response(outcome: Result<ExecutionResult, ErrorKind>) -> (r: Result<
    String,
    ErrorKind,
>)
    ensures
        yields(r, reported(outcome, DEFINITIONS_UPDATED@)),
{
    report(outcome, DEFINITIONS_UPDATED)
}

pub const GET_POLICY: &'static str = "(Get-ExecutionPolicy).ToString()";

pub const NO_POLICY: &'static str = "Impossible de récupérer la politique d'exécution";

/// The command that asks for the execution policy.
pub fn get_execution_policy_command() -> (r: Invocation)
    ensures
        r@ == powershell_bypass(GET_POLICY@),
{
    Invocation::powershell_bypass(String::from_str(GET_POLICY))
}

/// The execution policy that the command named.
pub open spec fn execution_policy(outcome: Result<ExecutionResult, ErrorKind>) -> Result<
    Seq<char>,
    ErrorView,
> {
    match outcome {
        Ok(raw) => if raw.exit_success {
            Ok(trimmed(utf8_lossy(raw.stdout@)))
        } else {
            Err(ErrorView::Unavailable { detail: NO_POLICY@ })
        },
        Err(e) => Err(e@),
    }
}

pub fn get_execution_policy_response(outcome: Result<ExecutionResult, ErrorKind>) -> (r: Result<
    String,
    ErrorKind,
>)
    ensures
        yields(r, execution_policy(outcome)),
{
    match outcome {
        Ok(raw) => if raw.exit_success {
            Ok(text_of(&trim(&chars_of(raw.stdout_text().as_str()))))
        } else {
            Err(ErrorKind::unavailable(NO_POLICY))
        },
        Err(e) => Err(e),
    }
}

pub const MODULE_NOT_INSTALLED: &'static str =
    "Le module PSWindowsUpdate n'est pas installé. Installez-le d'abord.";

pub const MODULE_UNCHECKED: &'static str =
    "Impossible de vérifier la disponibilité du module PSWindowsUpdate.";

pub const UPDATES_INSTALLED: &'static str = "Installation terminée:\n";

/// How far the installation of the updates on offer has come.
#[derive(Clone, Copy, Debug, PartialEq, Eq, Structural)]
pub enum UpdateInstall {
    CheckingModule,
    Installing,
}

/// What follows the check for the update module: the installation, where
/// the check ran, reported success and found the module.
pub open spec fn after_module_check(outcome: Result<ExecutionResult, ErrorKind>) -> Result<
    InvocationView,
    ErrorView,
> {
    match outcome {
        Ok(raw) => if raw.exit_success {
            if is_blank(utf8_lossy(raw.stdout@)) {
                Err(ErrorView::Unavailable { detail: MODULE_NOT_INSTALLED@ })
            } else {
                Ok(powershell_bypass(INSTALL_UPDATES_SCRIPT@))
            }
        } else {
            Err(ErrorView::Unavailable { detail: MODULE_UNCHECKED@ })
        },
        Err(_) => Err(ErrorView::Unavailable { detail: MODULE_UNCHECKED@ }),
    }
}

/// The installation of the updates on offer before anything was run, and
/// the command that checks for the update module.
pub fn install_windows_updates_begin() -> (r: (UpdateInstall, Invocation))
    ensures
        r.0 == UpdateInstall::CheckingModule,
        r.1@ == powershell_bypass(MODULE_CHECK@),
{
    (
        UpdateInstall::CheckingModule,
        Invocation::powershell_bypass(String::from_str(MODULE_CHECK)),
    )
}

/// The next step of the installation of the updates on offer.
pub fn install_windows_updates_resume(
    state: UpdateInstall,
    outcome: Result<ExecutionResult, ErrorKind>,
) -> (r: Step<UpdateInstall, Result<String, ErrorKind>>)
    ensures
        match state {
            UpdateInstall::CheckingModule => match after_module_check(outcome) {
                Ok(next) => r matches Step::Run(UpdateInstall::Installing, invocation)
                    && invocation@ == next,
                Err(e) => r matches Step::Done(Err(err)) && err@ == e,
            },
            UpdateInstall::Installing => r matches Step::Done(res) && yields(
                res,
                reported(outcome, UPDATES_INSTALLED@),
            ),
        },
{
    match state {
        UpdateInstall::CheckingModule => match outcome {
            Ok(raw) => if raw.exit_success {
                if blank(&chars_of(raw.stdout_text().as_str())) {
                    Step::Done(Err(ErrorKind::unavailable(MODULE_NOT_INSTALLED)))
                } else {
                    Step::Run(
                        UpdateInstall::Installing,
                        Invocation::powershell_bypass(String::from_str(INSTALL_UPDATES_SCRIPT)),
                    )
                }
            } else {
                Step::Done(Err(ErrorKind::unavailable(MODULE_UNCHECKED)))
            },
            Err(_) => Step::Done(Err(ErrorKind::unavailable(MODULE_UNCHECKED))),
        },
        UpdateInstall::Installing => Step::Done(report(outcome, UPDATES_INSTALLED)),
    }
}

// ---------------------------------------------------------------------------
// Installing the update module
// ---------------------------------------------------------------------------

pub const MODULE_PROBE: &'static str =
    "Get-Module -ListAvailable -Name PSWindowsUpdate | Select-Object -First 1 | ConvertTo-Json";

pub const INSTALL_FOR_USER: &'static str =
    "Set-ExecutionPolicy -ExecutionPolicy RemoteSigned -Scope CurrentUser -Force; Install-Module -Name PSWindowsUpdate -Force -Scope CurrentUser -AllowClobber";

pub const INSTALL_TRUSTED: &'static str =
    "Set-PSRepository -Name PSGallery -InstallationPolicy Trusted; Install-Module -Name PSWindowsUpdate -Force -Scope CurrentUser -AllowClobber";

pub const INSTALL_WITH_PROVIDER: &'static str =
    "Install-PackageProvider -Name NuGet -Force -Scope CurrentUser; Install-Module -Name PSWindowsUpdate -Force -Scope CurrentUser -AllowClobber";

pub const NULL_WORD: &'static str = "null";

pub const ALREADY_INSTALLED: &'static str = "Le module PSWindowsUpdate est déjà installé.";

pub const INSTALLED_BY_METHOD: &'static str =
    "Module PSWindowsUpdate installé avec succès (méthode ";

pub const INSTALLED_CLOSE: &'static str = ").";

pub const CANNOT_INSTALL: &'static str =
    "Impossible d'installer le module PSWindowsUpdate. Essayez d'exécuter l'application en tant qu'administrateur ou installez manuellement le module avec 'Install-Module PSWindowsUpdate' dans PowerShell.";

/// The number of ways in which the installation is tried.
pub const INSTALL_METHODS: usize = 3;

/// What the probe says of the module: it is there where the probe wrote
/// something and nowhere the word "null".
pub open spec fn module_present(out: Seq<char>) -> bool {
    !is_blank(out) && !contains(out, NULL_WORD@)
}

fn probe_found(out: &str) -> (r: bool)
    ensures
        r == module_present(out@),
{
    let chars = chars_of(out);
    !blank(&chars) && !includes(&chars, &chars_of(NULL_WORD))
}

/// The script of way `index` of installing the module.
pub open spec fn install_script(index: int) -> Seq<char> {
    if index == 0 {
        INSTALL_FOR_USER@
    } else if index == 1 {
        INSTALL_TRUSTED@
    } else {
        INSTALL_WITH_PROVIDER@
    }
}

fn install_invocation(index: usize) -> (r: Invocation)
    ensures
        r@ == powershell_bypass(install_script(index as int)),
{
    if index == 0 {
        Invocation::powershell_bypass(String::from_str(INSTALL_FOR_USER))
    } else if index == 1 {
        Invocation::powershell_bypass(String::from_str(INSTALL_TRUSTED))
    } else {
        Invocation::powershell_bypass(String::from_str(INSTALL_WITH_PROVIDER))
    }
}

/// What is being run for the installation of the module.
#[derive(Clone, Copy, Debug, PartialEq, Eq, Structural)]
pub enum InstallPhase {
    /// The probe that tells whether the module is there already.
    Probing,
    /// The pending way of installing.
    Installing,
    /// The probe that tells whether the pending way has worked.
    Verifying,
}

/// How far the installation of the update module has come: an exclusive
/// chain of the ways of installing, and what is being run.
#[derive(Clone, Copy, Debug)]
pub struct ModuleInstall {
    pub chain: Chain,
    pub phase: InstallPhase,
}

/// What the installation of the module does next.
pub enum ModuleAdvance {
    Go { chain: Chain, phase: InstallPhase, command: InvocationView },
    Stop(Result<Seq<char>, ErrorView>),
}

/// What follows a way of installing that has not worked: the next way,
/// where one is left.
pub open spec fn after_attempt(chain: Chain) -> ModuleAdvance {
    match chain.pending() {
        Some(next) => ModuleAdvance::Go {
            chain,
            phase: InstallPhase::Installing,
            command: powershell_bypass(install_script(next as int)),
        },
        None => ModuleAdvance::Stop(Err(ErrorView::Unavailable { detail: CANNOT_INSTALL@ })),
    }
}

/// The message that tells which way of installing has worked.
pub open spec fn installed_message(index: int) -> Seq<char> {
    INSTALLED_BY_METHOD@ + decimal((index + 1) as nat) + INSTALLED_CLOSE@
}

/// The next step of the installation of the module. A way of installing
/// has worked where the tool ran and reported success and the probe after
/// it finds the module; the first that has worked ends the installation,
/// and it fails where none has.
pub open spec fn module_advance(
    state: ModuleInstall,
    outcome: Result<ExecutionResult, ErrorKind>,
) -> ModuleAdvance {
    match state.phase {
        InstallPhase::Probing => match outcome {
            Err(e) => ModuleAdvance::Stop(Err(e@)),
            Ok(raw) => if module_present(utf8_lossy(raw.stdout@)) {
                ModuleAdvance::Stop(Ok(ALREADY_INSTALLED@))
            } else {
                after_attempt(Chain::fresh(Discipline::Exclusive, INSTALL_METHODS))
            },
        },
        InstallPhase::Installing => match outcome {
            Ok(raw) => if raw.exit_success && state.chain.pending() is Some {
                ModuleAdvance::Go {
                    chain: state.chain,
                    phase: InstallPhase::Verifying,
                    command: powershell_bypass(MODULE_PROBE@),
                }
            } else {
                after_attempt(state.chain.observed(false))
            },
            Err(_) => after_attempt(state.chain.observed(false)),
        },
        InstallPhase::Verifying => match outcome {
            Ok(raw) => if module_present(utf8_lossy(raw.stdout@)) && state.chain.pending()
                is Some {
                ModuleAdvance::Stop(Ok(installed_message(state.chain.pending()->0 as int)))
            } else {
                after_attempt(state.chain.observed(false))
            },
            Err(_) => after_attempt(state.chain.observed(false)),
        },
    }
}

/// Whether a step is the one that `advance` describes.
pub open spec fn module_step_is(
    step: Step<ModuleInstall, Result<String, ErrorKind>>,
    advance: ModuleAdvance,
) -> bool {
    match advance {
        ModuleAdvance::Go { chain, phase, command } => {
            &&& step matches Step::Run(state, invocation)
            &&& state.chain == chain
            &&& state.phase == phase
            &&& invocation@ == command
        },
        ModuleAdvance::Stop(Ok(message)) => {
            &&& step matches Step::Done(Ok(m))
            &&& m@ == message
        },
        ModuleAdvance::Stop(Err(e)) => {
            &&& step matches Step::Done(Err(err))
            &&& err@ == e
        },
    }
}

/// The installation of the module before anything was run, and the probe
/// that tells whether the module is there already.
pub fn install_pswindowsupdate_module_begin() -> (r: (ModuleInstall, Invocation))
    ensures
        r.0.phase == InstallPhase::Probing,
        r.0.chain == Chain::fresh(Discipline::Exclusive, INSTALL_METHODS),
        r.1@ == powershell_bypass(MODULE_PROBE@),
{
    (
        ModuleInstall {
            chain: Chain::new(Discipline::Exclusive, INSTALL_METHODS),
            phase: InstallPhase::Probing,
        },
        Invocation::powershell_bypass(String::from_str(MODULE_PROBE)),
    )
}

fn next_attempt(chain: Chain) -> (r: Step<ModuleInstall, Result<String, ErrorKind>>)
    ensures
        module_step_is(r, after_attempt(chain)),
{
    match chain.next_strategy() {
        Some(next) => Step::Run(
            ModuleInstall { chain, phase: InstallPhase::Installing },
            install_invocation(next),
        ),
        None => Step::Done(Err(ErrorKind::unavailable(CANNOT_INSTALL))),
    }
}

/// The next step of the installation of the module, given what the run
/// that the last step asked for came to.
pub fn install_pswindowsupdate_module_resume(
    state: ModuleInstall,
    outcome: Result<ExecutionResult, ErrorKind>,
) -> (r: Step<ModuleInstall, Result<String, ErrorKind>>)
    ensures
        module_step_is(r, module_advance(state, outcome)),
{
    let mut chain = state.chain;
    match state.phase {
        InstallPhase::Probing => match outcome {
            Err(e) => Step::Done(Err(e)),
            Ok(raw) => if probe_found(raw.stdout_text().as_str()) {
                Step::Done(Ok(String::from_str(ALREADY_INSTALLED)))
            } else {
                next_attempt(Chain::new(Discipline::Exclusive, INSTALL_METHODS))
            },
        },
        InstallPhase::Installing => {
            let worked = match &outcome {
                Ok(raw) => raw.exit_success,
                Err(_) => false,
            };
            if worked && chain.next_strategy().is_some() {
                Step::Run(
                    ModuleInstall { chain, phase: InstallPhase::Verifying },
                    Invocation::powershell_bypass(String::from_str(MODULE_PROBE)),
                )
            } else {
                chain.observe(false);
                next_attempt(chain)
            }
        },
        InstallPhase::Verifying => {
            let found = match &outcome {
                Ok(raw) => probe_found(raw.stdout_text().as_str()),
                Err(_) => false,
            };
            match chain.next_strategy() {
                Some(index) => if found {
                    let number = text_of(&decimal_of((index as u128) + 1));
                    Step::Done(
                        Ok(
                            String::from_str(INSTALLED_BY_METHOD).concat(number.as_str()).concat(
                                INSTALLED_CLOSE,
                            ),
                        ),
                    )
                } else {
                    chain.observe(false);
                    next_attempt(chain)
                },
                None => {
                    chain.observe(false);
                    next_attempt(chain)
                },
            }
        },
    }
}

} // verus!
