//! Network adapters with their addresses, name servers and gateway.

use vstd::prelude::*;
use vstd::string::*;
use crate::command::{powershell, Invocation, InvocationView};
use crate::error::{ErrorKind, ErrorView};
use crate::execution::{utf8_lossy, ExecutionResult};
use crate::flow::Step;
use crate::json::{decode, json_decoding, JsonTree, JsonValue};
use crate::mapper::{
    integer_at, integer_field, list_records, listed, NOT_AVAILABLE, Record, shown_start, text_at,
    text_field,
};
use crate::normalize::{last_filled_line, last_line, snippet};
use crate::text::{
    chars_of, contains, decimal, decimal_of, has_prefix, includes, lower, lowercase, same_text,
    starts_with, text_of, trim, trimmed, views, lemma_views_push,
};

verus! {

// ---------------------------------------------------------------------------
// What the tools report
// ---------------------------------------------------------------------------

/// An adapter as the list of adapters reports it.
#[derive(Debug)]
pub struct ReportedAdapter {
    pub name: String,
    pub description: String,
    pub mac_address: Option<String>,
    pub status: String,
    pub interface_index: u32,
}

pub struct ReportedAdapterView {
    pub name: Seq<char>,
    pub description: Seq<char>,
    pub mac_address: Option<Seq<char>>,
    pub status: Seq<char>,
    pub interface_index: u32,
}

impl View for ReportedAdapter {
    type V = ReportedAdapterView;

    open spec fn view(&self) -> ReportedAdapterView {
        ReportedAdapterView {
            name: self.name@,
            description: self.description@,
            mac_address: match self.mac_address {
                Some(t) => Some(t@),
                None => None,
            },
            status: self.status@,
            interface_index: self.interface_index,
        }
    }
}

/// The interface index of a record.
pub open spec fn index_at(tree: JsonTree) -> Option<u32> {
    match integer_at(tree, "InterfaceIndex"@, 0, u32::MAX as int) {
        Some(i) => Some(i as u32),
        None => None,
    }
}

fn index_field(value: &JsonValue) -> (r: Option<u32>)
    ensures
        r == index_at(value@),
{
    match integer_field(value, "InterfaceIndex", 0, 0xFFFF_FFFF) {
        Some(i) => Some(i as u32),
        None => None,
    }
}

impl Record for ReportedAdapter {
    /// An adapter needs its name, its description, its status and its
    /// interface index.
    open spec fn mapped(tree: JsonTree) -> Option<ReportedAdapterView> {
        match (
            text_at(tree, "Name"@),
            text_at(tree, "InterfaceDescription"@),
            text_at(tree, "Status"@),
            index_at(tree),
        ) {
            (Some(name), Some(description), Some(status), Some(interface_index)) => Some(
                ReportedAdapterView {
                    name,
                    description,
                    mac_address: text_at(tree, "MacAddress"@),
                    status,
                    interface_index,
                },
            ),
            _ => None,
        }
    }

    fn map(value: &JsonValue) -> (r: Option<ReportedAdapter>) {
        let name = text_field(value, "Name")?;
        let description = text_field(value, "InterfaceDescription")?;
        let status = text_field(value, "Status")?;
        let interface_index = index_field(value)?;
        Some(
            ReportedAdapter {
                name,
                description,
                mac_address: text_field(value, "MacAddress"),
                status,
                interface_index,
            },
        )
    }
}

/// The texts among `items`, in order.
pub open spec fn texts_among(items: Seq<JsonTree>) -> Seq<Seq<char>>
    decreases items.len(),
{
    if items.len() == 0 {
        Seq::empty()
    } else {
        let init = texts_among(items.drop_last());
        match items.last() {
            JsonTree::Text(t) => init.push(t),
            _ => init,
        }
    }
}

/// The texts among the items of the array `value`; nothing where it is no
/// array.
pub open spec fn text_items(value: Option<JsonTree>) -> Seq<Seq<char>> {
    match value {
        Some(JsonTree::Array(items)) => texts_among(items),
        _ => Seq::empty(),
    }
}

fn text_items_of(value: Option<&JsonValue>) -> (r: Vec<String>)
    ensures
        views(r@) == text_items(
            match value {
                Some(v) => Some(v@),
                None => None,
            },
        ),
{
    let mut r: Vec<String> = Vec::new();
    assert(views(r@) =~= Seq::<Seq<char>>::empty());
    match value {
        Some(v) => match v.as_array() {
            Some(items) => {
                let ghost all = views(items@);
                let mut i: usize = 0;
                while i < items.len()
                    invariant
                        i <= items.len(),
                        all == views(items@),
                        views(r@) == texts_among(all.subrange(0, i as int)),
                    decreases items.len() - i,
                {
                    proof {
                        let next = all.subrange(0, i + 1);
                        assert(next.drop_last() == all.subrange(0, i as int));
                        assert(next.last() == items@[i as int]@);
                    }
                    match items[i].as_text() {
                        Some(t) => {
                            let ghost before = views(r@);
                            r.push(t.clone());
                            assert(views(r@) =~= before.push(t@));
                        },
                        None => {},
                    }
                    i += 1;
                }
                assert(all.subrange(0, items.len() as int) == all);
            },
            None => {},
        },
        None => {},
    }
    r
}

/// The addresses in a list of address records: of each record that has
/// it, the text of the member that holds the address.
pub open spec fn addresses_among(items: Seq<JsonTree>) -> Seq<Seq<char>>
    decreases items.len(),
{
    if items.len() == 0 {
        Seq::empty()
    } else {
        let init = addresses_among(items.drop_last());
        match text_at(items.last(), "IPAddress"@) {
            Some(t) => init.push(t),
            None => init,
        }
    }
}

/// The configuration of an interface as the list of configurations
/// reports it.
#[derive(Debug)]
pub struct IpConfiguration {
    pub interface_index: u32,
    pub addresses: Vec<String>,
    pub dns_servers: Vec<String>,
    pub gateway: Option<String>,
}

pub struct IpConfigurationView {
    pub interface_index: u32,
    pub addresses: Seq<Seq<char>>,
    pub dns_servers: Seq<Seq<char>>,
    pub gateway: Option<Seq<char>>,
}

impl View for IpConfiguration {
    type V = IpConfigurationView;

    open spec fn view(&self) -> IpConfigurationView {
        IpConfigurationView {
            interface_index: self.interface_index,
            addresses: views(self.addresses@),
            dns_servers: views(self.dns_servers@),
            gateway: match self.gateway {
                Some(t) => Some(t@),
                None => None,
            },
        }
    }
}

/// The name servers in a record: the texts of a list, or the one text
/// that stands in place of a list, unless it is empty.
pub open spec fn name_servers_at(tree: JsonTree) -> Seq<Seq<char>> {
    match tree.field("DNSServer"@) {
        Some(JsonTree::Array(items)) => texts_among(items),
        Some(JsonTree::Text(t)) => if t.len() > 0 {
            seq![t]
        } else {
            Seq::empty()
        },
        _ => Seq::empty(),
    }
}

/// The addresses in a record.
pub open spec fn addresses_at(tree: JsonTree) -> Seq<Seq<char>> {
    match tree.field("IPAddress"@) {
        Some(JsonTree::Array(items)) => addresses_among(items),
        _ => Seq::empty(),
    }
}

fn addresses_field(value: &JsonValue) -> (r: Vec<String>)
    ensures
        views(r@) == addresses_at(value@),
{
    let mut r: Vec<String> = Vec::new();
    assert(views(r@) =~= Seq::<Seq<char>>::empty());
    match value.get("IPAddress") {
        Some(v) => match v.as_array() {
            Some(items) => {
                let ghost all = views(items@);
                let mut i: usize = 0;
                while i < items.len()
                    invariant
                        i <= items.len(),
                        all == views(items@),
                        views(r@) == addresses_among(all.subrange(0, i as int)),
                    decreases items.len() - i,
                {
                    proof {
                        let next = all.subrange(0, i + 1);
                        assert(next.drop_last() == all.subrange(0, i as int));
                        assert(next.last() == items@[i as int]@);
                    }
                    match text_field(&items[i], "IPAddress") {
                        Some(t) => {
                            let ghost before = views(r@);
                            r.push(t);
                            assert(views(r@) =~= before.push(r@[r.len() - 1]@));
                        },
                        None => {},
                    }
                    i += 1;
                }
                assert(all.subrange(0, items.len() as int) == all);
            },
            None => {},
        },
        None => {},
    }
    r
}

fn name_servers_field(value: &JsonValue) -> (r: Vec<String>)
    ensures
        views(r@) == name_servers_at(value@),
{
    let member = value.get("DNSServer");
    match member {
        Some(JsonValue::Text(t)) => {
            let mut r: Vec<String> = Vec::new();
            if chars_of(t.as_str()).len() > 0 {
                r.push(t.clone());
                assert(views(r@) =~= seq![t@]);
            } else {
                assert(views(r@) =~= Seq::<Seq<char>>::empty());
            }
            r
        },
        Some(JsonValue::Array(_)) => text_items_of(member),
        _ => {
            let r: Vec<String> = Vec::new();
            assert(views(r@) =~= Seq::<Seq<char>>::empty());
            r
        },
    }
}

impl Record for IpConfiguration {
    /// A configuration needs its interface index.
    open spec fn mapped(tree: JsonTree) -> Option<IpConfigurationView> {
        match index_at(tree) {
            Some(interface_index) => Some(
                IpConfigurationView {
                    interface_index,
                    addresses: addresses_at(tree),
                    dns_servers: name_servers_at(tree),
                    gateway: text_at(tree, "Gateway"@),
                },
            ),
            None => None,
        }
    }

    fn map(value: &JsonValue) -> (r: Option<IpConfiguration>) {
        let interface_index = index_field(value)?;
        Some(
            IpConfiguration {
                interface_index,
                addresses: addresses_field(value),
                dns_servers: name_servers_field(value),
                gateway: text_field(value, "Gateway"),
            },
        )
    }
}

/// The configuration of the interface `index`: the last of `configs` that
/// is for it.
pub open spec fn configuration_of(configs: Seq<IpConfigurationView>, index: u32) -> Option<
    IpConfigurationView,
>
    decreases configs.len(),
{
    if configs.len() == 0 {
        None
    } else if configs.last().interface_index == index {
        Some(configs.last())
    } else {
        configuration_of(configs.drop_last(), index)
    }
}

fn find_configuration(configs: &Vec<IpConfiguration>, index: u32) -> (r: Option<usize>)
    ensures
        match r {
            Some(k) => k < configs.len() && configuration_of(views(configs@), index) == Some(
                configs@[k as int]@,
            ),
            None => configuration_of(views(configs@), index) is None,
        },
{
    let ghost all = views(configs@);
    let mut k: usize = configs.len();
    assert(all.subrange(0, all.len() as int) == all);
    while k > 0
        invariant
            k <= configs.len(),
            all == views(configs@),
            configuration_of(all, index) == configuration_of(all.subrange(0, k as int), index),
        decreases k,
    {
        let ghost cur = all.subrange(0, k as int);
        assert(cur.last() == configs@[k - 1]@);
        assert(cur.drop_last() == all.subrange(0, k - 1));
        if configs[k - 1].interface_index == index {
            return Some(k - 1);
        }
        k -= 1;
    }
    assert(all.subrange(0, 0).len() == 0);
    None
}

pub const LINK_LOCAL: &'static str = "fe80";

/// The addresses among `items` that are kept: the texts that are not
/// empty and, where `routable_only` is set, do not start with the prefix of
/// link-local addresses.
pub open spec fn kept_addresses(items: Seq<JsonTree>, routable_only: bool) -> Seq<Seq<char>>
    decreases items.len(),
{
    if items.len() == 0 {
        Seq::empty()
    } else {
        let init = kept_addresses(items.drop_last(), routable_only);
        match items.last() {
            JsonTree::Text(t) => if t.len() > 0 && !(routable_only && starts_with(
                t,
                LINK_LOCAL@,
            )) {
                init.push(t)
            } else {
                init
            },
            _ => init,
        }
    }
}

/// The kept addresses of the member `family` of an entry of the address
/// map.
pub open spec fn family_addresses(entry: JsonTree, family: Seq<char>, routable_only: bool) -> Seq<
    Seq<char>,
> {
    match entry.field(family) {
        Some(JsonTree::Array(items)) => kept_addresses(items, routable_only),
        _ => Seq::empty(),
    }
}

/// The addresses that the address map holds for the interface `index`:
/// its IPv4 addresses, then its IPv6 addresses that are not link-local.
pub open spec fn mapped_addresses(map: JsonTree, index: u32) -> Seq<Seq<char>> {
    match map.field(decimal(index as nat)) {
        Some(entry) => family_addresses(entry, "IPv4"@, false) + family_addresses(
            entry,
            "IPv6"@,
            true,
        ),
        None => Seq::empty(),
    }
}

fn add_family(r: &mut Vec<String>, entry: &JsonValue, family: &str, routable_only: bool)
    ensures
        views(final(r)@) == views(old(r)@) + family_addresses(entry@, family@, routable_only),
{
    let ghost start = views(r@);
    assert(start + Seq::<Seq<char>>::empty() =~= start);
    match entry.get(family) {
        Some(v) => match v.as_array() {
            Some(items) => {
                let ghost all = views(items@);
                let mut i: usize = 0;
                while i < items.len()
                    invariant
                        i <= items.len(),
                        all == views(items@),
                        views(r@) == start + kept_addresses(
                            all.subrange(0, i as int),
                            routable_only,
                        ),
                    decreases items.len() - i,
                {
                    proof {
                        let next = all.subrange(0, i + 1);
                        assert(next.drop_last() == all.subrange(0, i as int));
                        assert(next.last() == items@[i as int]@);
                    }
                    match items[i].as_text() {
                        Some(t) => {
                            let chars = chars_of(t.as_str());
                            if chars.len() > 0 && !(routable_only && has_prefix(
                                &chars,
                                &chars_of(LINK_LOCAL),
                            )) {
                                let ghost before = views(r@);
                                r.push(t.clone());
                                assert(views(r@) =~= before.push(t@));
                                assert(views(r@) =~= start + kept_addresses(
                                    all.subrange(0, i + 1),
                                    routable_only,
                                ));
                            }
                        },
                        None => {},
                    }
                    i += 1;
                }
                assert(all.subrange(0, items.len() as int) == all);
            },
            None => {},
        },
        None => {},
    }
}

fn addresses_in_map(map: &JsonValue, index: u32) -> (r: Vec<String>)
    ensures
        views(r@) == mapped_addresses(map@, index),
{
    let mut r: Vec<String> = Vec::new();
    assert(views(r@) =~= Seq::<Seq<char>>::empty());
    let key = text_of(&decimal_of(index as u128));
    match map.get(key.as_str()) {
        Some(entry) => {
            add_family(&mut r, entry, "IPv4", false);
            add_family(&mut r, entry, "IPv6", true);
            assert(views(r@) =~= mapped_addresses(map@, index));
        },
        None => {},
    }
    r
}

// ---------------------------------------------------------------------------
// The adapters as they are reported to the caller
// ---------------------------------------------------------------------------

#[derive(Debug)]
pub struct NetworkAdapterInfo {
    pub name: String,
    pub description: String,
    pub mac_address: String,
    pub status: String,
    pub ip_addresses: Vec<String>,
    pub dns_servers: Vec<String>,
    pub gateway: String,
}

pub struct NetworkAdapterView {
    pub name: Seq<char>,
    pub description: Seq<char>,
    pub mac_address: Seq<char>,
    pub status: Seq<char>,
    pub ip_addresses: Seq<Seq<char>>,
    pub dns_servers: Seq<Seq<char>>,
    pub gateway: Seq<char>,
}

impl View for NetworkAdapterInfo {
    type V = NetworkAdapterView;

    open spec fn view(&self) -> NetworkAdapterView {
        NetworkAdapterView {
            name: self.name@,
            description: self.description@,
            mac_address: self.mac_address@,
            status: self.status@,
            ip_addresses: views(self.ip_addresses@),
            dns_servers: views(self.dns_servers@),
            gateway: self.gateway@,
        }
    }
}

fn copy_texts(list: &Vec<String>) -> (r: Vec<String>)
    ensures
        views(r@) == views(list@),
{
    let mut r: Vec<String> = Vec::new();
    let mut i: usize = 0;
    while i < list.len()
        invariant
            i <= list.len(),
            r@.len() == i,
            forall|k: int| 0 <= k < i ==> (#[trigger] r@[k])@ == list@[k]@,
        decreases list.len() - i,
    {
        r.push(list[i].clone());
        i += 1;
    }
    assert(views(r@) =~= views(list@));
    r
}

// ---------------------------------------------------------------------------
// The survey
// ---------------------------------------------------------------------------

pub const LIST_ADAPTERS: &'static str =
    "Get-NetAdapter | Select-Object Name, InterfaceDescription, MacAddress, Status, InterfaceIndex | ConvertTo-Json -Depth 3 -Compress";

/// Writes, as its last line, one JSON object that maps each interface index to its IPv4 and IPv6 addresses.
pub const ADDRESSES_SCRIPT: &'static str = r#"
    # Désactiver la journalisation détaillée (au lieu de l'activer)
    $VerbosePreference = 'SilentlyContinue'
    $DebugPreference = 'SilentlyContinue'
    
    $adapters = Get-NetAdapter | Select-Object -Property InterfaceIndex
    
    $allIps = @{}
    foreach ($adapter in $adapters) {
        $idx = $adapter.InterfaceIndex.ToString()
        $ipv4s = @()
        $ipv6s = @()
        
        # Utiliser Try/Catch pour éviter les erreurs si l'adaptateur n'a pas d'adresse IP
        try {
            $ips = Get-NetIPAddress -InterfaceIndex $adapter.InterfaceIndex -ErrorAction Stop | Select-Object IPAddress, AddressFamily
            
            $ipv4s = @($ips | Where-Object { $_.AddressFamily -eq 'IPv4' } | ForEach-Object { $_.IPAddress })
            
            $ipv6s = @($ips | Where-Object { $_.AddressFamily -eq 'IPv6' } | ForEach-Object { $_.IPAddress })
        } catch {
            # Simplement ignorer l'erreur et continuer - cet adaptateur n'a pas d'adresses IP
        }
        
        # Utiliser des clés string pour le hashtable (important pour la sérialisation JSON)
        $allIps[$idx] = @{
            'IPv4' = $ipv4s;
            'IPv6' = $ipv6s
        }
    }
    
    # Convertir manuellement en format JSON valide
    $jsonResult = '{'
    $first = $true
    foreach ($key in $allIps.Keys) {
        if (-not $first) { $jsonResult += ',' }
        # Forcer des tableaux vides plutôt que null si aucune IP
        $ipv4Json = if ($allIps[$key]['IPv4'].Count -gt 0) { 
            ConvertTo-Json -InputObject $allIps[$key]['IPv4'] -Compress 
        } else { 
            "[]" 
        }
        
        $ipv6Json = if ($allIps[$key]['IPv6'].Count -gt 0) { 
            ConvertTo-Json -InputObject $allIps[$key]['IPv6'] -Compress 
        } else { 
            "[]" 
        }
        
        $jsonResult += "`"$key`": { `"IPv4`": $ipv4Json, `"IPv6`": $ipv6Json }"
        $first = $false
    }
    $jsonResult += '}'
    $jsonResult
    "#;

/// The script that asks an active interface with a default gateway for its address, up to the interface index.
pub const LAST_RESORT_OPEN: &'static str = r#"
            try {
                $activeConfig = Get-NetIPConfiguration | Where-Object { 
                    $_.InterfaceIndex -eq "#;

/// The script that asks an active interface with a default gateway for its address, after the interface index.
pub const LAST_RESORT_CLOSE: &'static str = r#" -and
                    $_.IPv4DefaultGateway -ne $null -and 
                    $_.NetAdapter.Status -eq "Up" 
                } | Select-Object -First 1
                
                if ($activeConfig -ne $null -and $activeConfig.IPv4Address -ne $null) {
                    $activeConfig.IPv4Address.IPAddress
                } else {
                    ""
                }
            } catch {
                Write-Error "Erreur récupération IP secours: $_"
                ""
            }
            "#;

pub const LIST_CONFIGURATIONS: &'static str =
    "Get-NetIPConfiguration | Select-Object InterfaceIndex, @{Name='DNSServer';Expression={$_.DNSServer.ServerAddresses}}, @{Name='Gateway';Expression={$_.IPv4DefaultGateway.NextHop}} | ConvertTo-Json -Depth 4 -Compress";

pub const BLUETOOTH_STATUS: &'static str =
    "Get-PnpDevice | Where-Object { $_.FriendlyName -like '*Bluetooth*' -or $_.Class -eq 'Bluetooth' } | Select-Object Status | ConvertTo-Json -Compress";

pub const DIRECT_OPEN: &'static str = "Get-NetIPConfiguration -InterfaceIndex ";

pub const DIRECT_CLOSE: &'static str =
    " | Select-Object -ExpandProperty IPv4Address | Select-Object -ExpandProperty IPAddress";

pub const BLUETOOTH: &'static str = "bluetooth";

pub const STATUS_OK: &'static str = "\"status\":\"ok\"";

pub const UP: &'static str = "Up";

/// What the survey of the adapters is running.
#[derive(Clone, Copy, Debug, PartialEq, Eq, Structural)]
pub enum SurveyStage {
    /// The list of adapters.
    Adapters,
    /// The map from interface index to addresses.
    Addresses,
    /// The list of configurations.
    Configurations,
    /// The question whether a Bluetooth device works, for the adapter at
    /// `position`.
    Bluetooth,
    /// The direct question for the address of the adapter at `position`.
    DirectAddress,
    /// The last question for the address of the adapter at `position`.
    LastResort,
}

/// How far the survey of the adapters has come.
#[derive(Debug)]
pub struct AdapterSurvey {
    pub stage: SurveyStage,
    pub adapters: Vec<ReportedAdapter>,
    pub address_map: JsonValue,
    pub configurations: Vec<IpConfiguration>,
    /// The adapter that is being completed.
    pub position: usize,
    /// The status of that adapter as far as it is settled.
    pub status: String,
    /// The adapters before `position`, completed.
    pub done: Vec<NetworkAdapterInfo>,
}

pub struct AdapterSurveyView {
    pub stage: SurveyStage,
    pub adapters: Seq<ReportedAdapterView>,
    pub address_map: JsonTree,
    pub configurations: Seq<IpConfigurationView>,
    pub position: nat,
    pub status: Seq<char>,
    pub done: Seq<NetworkAdapterView>,
}

impl View for AdapterSurvey {
    type V = AdapterSurveyView;

    open spec fn view(&self) -> AdapterSurveyView {
        AdapterSurveyView {
            stage: self.stage,
            adapters: views(self.adapters@),
            address_map: self.address_map@,
            configurations: views(self.configurations@),
            position: self.position as nat,
            status: self.status@,
            done: views(self.done@),
        }
    }
}

/// What the survey does next.
pub enum SurveyAdvance {
    Go(AdapterSurveyView, InvocationView),
    Stop(Result<Seq<NetworkAdapterView>, ErrorView>),
}

/// The script of the direct question for the address of an interface.
pub open spec fn direct_script(index: u32) -> Seq<char> {
    DIRECT_OPEN@ + decimal(index as nat) + DIRECT_CLOSE@
}

/// The script of the last question for the address of an interface.
pub open spec fn last_resort_script(index: u32) -> Seq<char> {
    LAST_RESORT_OPEN@ + decimal(index as nat) + LAST_RESORT_CLOSE@
}

pub open spec fn is_bluetooth(adapter: ReportedAdapterView) -> bool {
    contains(lowercase(adapter.description), BLUETOOTH@)
}

pub open spec fn is_up(adapter: ReportedAdapterView) -> bool {
    adapter.status == UP@
}

/// The addresses of an adapter that need no further question: those of
/// the address map, or, where it has none, those of its configuration.
pub open spec fn local_addresses(s: AdapterSurveyView, adapter: ReportedAdapterView) -> Seq<
    Seq<char>,
> {
    let first = mapped_addresses(s.address_map, adapter.interface_index);
    if first.len() > 0 {
        first
    } else {
        match configuration_of(s.configurations, adapter.interface_index) {
            Some(c) => c.addresses,
            None => Seq::empty(),
        }
    }
}

/// The adapter as it is reported, with the status and the addresses that
/// were settled for it, and the name servers and the gateway of its
/// configuration.
pub open spec fn completed(
    s: AdapterSurveyView,
    adapter: ReportedAdapterView,
    addresses: Seq<Seq<char>>,
) -> NetworkAdapterView {
    let configuration = configuration_of(s.configurations, adapter.interface_index);
    NetworkAdapterView {
        name: adapter.name,
        description: adapter.description,
        mac_address: match adapter.mac_address {
            Some(m) => m,
            None => NOT_AVAILABLE@,
        },
        status: s.status,
        ip_addresses: addresses,
        dns_servers: match configuration {
            Some(c) => c.dns_servers,
            None => Seq::empty(),
        },
        gateway: match configuration {
            Some(c) => match c.gateway {
                Some(g) => if g.len() > 0 {
                    g
                } else {
                    NOT_AVAILABLE@
                },
                None => NOT_AVAILABLE@,
            },
            None => NOT_AVAILABLE@,
        },
    }
}

/// The survey with the adapter at its position completed.
pub open spec fn with_completed(s: AdapterSurveyView, addresses: Seq<Seq<char>>) -> AdapterSurveyView {
    AdapterSurveyView {
        position: s.position + 1,
        status: Seq::empty(),
        done: s.done.push(completed(s, s.adapters[s.position as int], addresses)),
        ..s
    }
}

/// What the survey does from the adapter at its position on, where
/// `settled` says whether the status of that adapter is settled. The
/// adapters are completed in order. An adapter whose description names
/// Bluetooth has its status asked for. An adapter for which neither the
/// address map nor its configuration holds an address, and which is up,
/// has its address asked for. All others are completed without a question.
pub open spec fn proceed(s: AdapterSurveyView, settled: bool) -> SurveyAdvance
    decreases s.adapters.len() - s.position, if settled { 0int } else { 1int },
{
    if s.position >= s.adapters.len() {
        SurveyAdvance::Stop(Ok(s.done))
    } else {
        let adapter = s.adapters[s.position as int];
        if !settled {
            let named = AdapterSurveyView { status: adapter.status, ..s };
            if is_bluetooth(adapter) {
                SurveyAdvance::Go(
                    AdapterSurveyView { stage: SurveyStage::Bluetooth, ..named },
                    powershell(BLUETOOTH_STATUS@),
                )
            } else {
                proceed(named, true)
            }
        } else {
            let found = local_addresses(s, adapter);
            if found.len() == 0 && is_up(adapter) {
                SurveyAdvance::Go(
                    AdapterSurveyView { stage: SurveyStage::DirectAddress, ..s },
                    powershell(direct_script(adapter.interface_index)),
                )
            } else {
                proceed(with_completed(s, found), false)
            }
        }
    }
}

/// The status that the question about Bluetooth settles: up where a
/// device is reported to work, else the status that the adapter had.
pub open spec fn bluetooth_status(status: Seq<char>, outcome: Result<ExecutionResult, ErrorKind>) -> Seq<
    char,
> {
    match outcome {
        Ok(raw) => if raw.exit_success && contains(
            lowercase(utf8_lossy(raw.stdout@)),
            STATUS_OK@,
        ) {
            UP@
        } else {
            status
        },
        Err(_) => status,
    }
}

/// The address that a question for an address gave: what the tool wrote,
/// trimmed, where it ran, reported success and wrote something.
pub open spec fn asked_address(outcome: Result<ExecutionResult, ErrorKind>) -> Seq<Seq<char>> {
    match outcome {
        Ok(raw) => if raw.exit_success && trimmed(utf8_lossy(raw.stdout@)).len() > 0 {
            seq![trimmed(utf8_lossy(raw.stdout@))]
        } else {
            Seq::empty()
        },
        Err(_) => Seq::empty(),
    }
}

/// The address map in the output of its script: the object on the last
/// line that holds something.
pub open spec fn address_map_in(out: Seq<char>) -> Result<JsonTree, ErrorView> {
    let line = last_filled_line(out);
    match json_decoding(line) {
        Some(tree) => if tree is Object {
            Ok(tree)
        } else {
            Err(ErrorView::MalformedOutput { raw_snippet: snippet(line) })
        },
        None => Err(ErrorView::MalformedOutput { raw_snippet: snippet(line) }),
    }
}

/// The next step of the survey. The three lists come first, and the
/// survey fails where one of them cannot be had or read. Then the adapters
/// are completed in order; a question that cannot be asked or fails is
/// taken as having given nothing.
pub open spec fn survey_advance(
    s: AdapterSurveyView,
    outcome: Result<ExecutionResult, ErrorKind>,
) -> SurveyAdvance {
    match s.stage {
        SurveyStage::Adapters => match listed::<ReportedAdapter>(outcome) {
            Err(e) => SurveyAdvance::Stop(Err(e)),
            Ok(adapters) => SurveyAdvance::Go(
                AdapterSurveyView { stage: SurveyStage::Addresses, adapters, ..s },
                powershell(ADDRESSES_SCRIPT@),
            ),
        },
        SurveyStage::Addresses => match outcome {
            Err(e) => SurveyAdvance::Stop(Err(e@)),
            Ok(raw) => if !raw.exit_success {
                SurveyAdvance::Stop(
                    Err(ErrorView::ExternalToolFailed { stderr: utf8_lossy(raw.stderr@) }),
                )
            } else {
                match address_map_in(utf8_lossy(raw.stdout@)) {
                    Err(e) => SurveyAdvance::Stop(Err(e)),
                    Ok(address_map) => SurveyAdvance::Go(
                        AdapterSurveyView { stage: SurveyStage::Configurations, address_map, ..s },
                        powershell(LIST_CONFIGURATIONS@),
                    ),
                }
            },
        },
        SurveyStage::Configurations => match listed::<IpConfiguration>(outcome) {
            Err(e) => SurveyAdvance::Stop(Err(e)),
            Ok(configurations) => proceed(
                AdapterSurveyView {
                    configurations,
                    position: 0,
                    status: Seq::empty(),
                    done: Seq::empty(),
                    ..s
                },
                false,
            ),
        },
        SurveyStage::Bluetooth => proceed(
            AdapterSurveyView { status: bluetooth_status(s.status, outcome), ..s },
            true,
        ),
        SurveyStage::DirectAddress => if s.position >= s.adapters.len() {
            SurveyAdvance::Stop(Ok(s.done))
        } else if asked_address(outcome).len() == 0 {
            SurveyAdvance::Go(
                AdapterSurveyView { stage: SurveyStage::LastResort, ..s },
                powershell(last_resort_script(s.adapters[s.position as int].interface_index)),
            )
        } else {
            proceed(with_completed(s, asked_address(outcome)), false)
        },
        SurveyStage::LastResort => if s.position >= s.adapters.len() {
            SurveyAdvance::Stop(Ok(s.done))
        } else {
            proceed(with_completed(s, asked_address(outcome)), false)
        },
    }
}

/// Whether a step is the one that `advance` describes.
pub open spec fn survey_step_is(
    step: Step<AdapterSurvey, Result<Vec<NetworkAdapterInfo>, ErrorKind>>,
    advance: SurveyAdvance,
) -> bool {
    match advance {
        SurveyAdvance::Go(state, command) => {
            &&& step matches Step::Run(survey, invocation)
            &&& survey@ == state
            &&& invocation@ == command
        },
        SurveyAdvance::Stop(Ok(items)) => {
            &&& step matches Step::Done(Ok(v))
            &&& views(v@) == items
        },
        SurveyAdvance::Stop(Err(e)) => {
            &&& step matches Step::Done(Err(err))
            &&& err@ == e
        },
    }
}

// ---------------------------------------------------------------------------
// A whole survey
// ---------------------------------------------------------------------------

/// What a survey comes to when the runs that it asks for are answered by
/// `replies`, in order; `None` where the replies run out before it ends.
pub open spec fn survey_outcome(
    s: AdapterSurveyView,
    replies: Seq<Result<ExecutionResult, ErrorKind>>,
) -> Option<Result<Seq<NetworkAdapterView>, ErrorView>>
    decreases replies.len(),
{
    if replies.len() == 0 {
        None
    } else {
        match survey_advance(s, replies[0]) {
            SurveyAdvance::Go(next, _) => survey_outcome(next, replies.drop_first()),
            SurveyAdvance::Stop(result) => Some(result),
        }
    }
}

/// The states in which a survey asks for a run, one after each of
/// `replies` as long as it goes on.
pub open spec fn survey_questions(
    s: AdapterSurveyView,
    replies: Seq<Result<ExecutionResult, ErrorKind>>,
) -> Seq<AdapterSurveyView>
    decreases replies.len(),
{
    if replies.len() == 0 {
        Seq::empty()
    } else {
        match survey_advance(s, replies[0]) {
            SurveyAdvance::Go(next, _) => seq![next] + survey_questions(
                next,
                replies.drop_first(),
            ),
            SurveyAdvance::Stop(_) => Seq::empty(),
        }
    }
}

/// What comes of a step when the runs asked for after it are answered by
/// `replies`.
pub open spec fn outcome_after(
    advance: SurveyAdvance,
    replies: Seq<Result<ExecutionResult, ErrorKind>>,
) -> Option<Result<Seq<NetworkAdapterView>, ErrorView>> {
    match advance {
        SurveyAdvance::Go(next, _) => survey_outcome(next, replies),
        SurveyAdvance::Stop(result) => Some(result),
    }
}

/// The states in which a run is asked for from a step on.
pub open spec fn questions_after(
    advance: SurveyAdvance,
    replies: Seq<Result<ExecutionResult, ErrorKind>>,
) -> Seq<AdapterSurveyView> {
    match advance {
        SurveyAdvance::Go(next, _) => seq![next] + survey_questions(next, replies),
        SurveyAdvance::Stop(_) => Seq::empty(),
    }
}

/// Whether an adapter is listed under its name and description, and, where
/// the address map or its configuration holds addresses for it, with
/// exactly those.
pub open spec fn reports(
    s: AdapterSurveyView,
    listed: NetworkAdapterView,
    adapter: ReportedAdapterView,
) -> bool {
    &&& listed.name == adapter.name
    &&& listed.description == adapter.description
    &&& local_addresses(s, adapter).len() > 0 ==> listed.ip_addresses == local_addresses(
        s,
        adapter,
    )
}

/// Whether a state asks one adapter for its address.
pub open spec fn asks_for_address(q: AdapterSurveyView) -> bool {
    q.stage == SurveyStage::DirectAddress || q.stage == SurveyStage::LastResort
}

/// Whether a state that asks an adapter for its address asks one that is up
/// and for which neither the address map nor its configuration holds one.
pub open spec fn asks_where_needed(s: AdapterSurveyView, q: AdapterSurveyView) -> bool {
    asks_for_address(q) ==> {
        &&& q.position < s.adapters.len()
        &&& local_addresses(s, s.adapters[q.position as int]).len() == 0
        &&& is_up(s.adapters[q.position as int])
    }
}

proof fn lemma_survey_goes_through(
    s: AdapterSurveyView,
    settled: bool,
    replies: Seq<Result<ExecutionResult, ErrorKind>>,
)
    requires
        s.position <= s.adapters.len(),
        s.done.len() == s.position,
        forall|i: int| 0 <= i < s.position ==> reports(s, #[trigger] s.done[i], s.adapters[i]),
        replies.len() + (if settled { 1int } else { 0int }) >= 3 * (s.adapters.len() - s.position),
    ensures
        outcome_after(proceed(s, settled), replies) matches Some(Ok(v)) && v.len()
            == s.adapters.len() && forall|i: int|
            0 <= i < v.len() ==> reports(s, #[trigger] v[i], s.adapters[i]),
        forall|k: int|
            0 <= k < questions_after(proceed(s, settled), replies).len() ==> asks_where_needed(
                s,
                #[trigger] questions_after(proceed(s, settled), replies)[k],
            ),
    decreases s.adapters.len() - s.position, if settled { 0int } else { 1int },
{
    if s.position < s.adapters.len() {
        let adapter = s.adapters[s.position as int];
        if !settled {
            let named = AdapterSurveyView { status: adapter.status, ..s };
            if is_bluetooth(adapter) {
                let asking = AdapterSurveyView { stage: SurveyStage::Bluetooth, ..named };
                let answered = AdapterSurveyView {
                    status: bluetooth_status(asking.status, replies[0]),
                    ..asking
                };
                let rest = replies.drop_first();
                assert(survey_advance(asking, replies[0]) == proceed(answered, true));
                lemma_reports_alike(s, answered);
                lemma_survey_goes_through(answered, true, rest);
                assert(survey_outcome(asking, replies) == outcome_after(
                    proceed(answered, true),
                    rest,
                ));
                assert(survey_questions(asking, replies) == questions_after(
                    proceed(answered, true),
                    rest,
                ));
                lemma_questions_alike(s, answered, survey_questions(asking, replies));
                lemma_one_more_question(s, asking, survey_questions(asking, replies));
            } else {
                lemma_reports_alike(s, named);
                lemma_survey_goes_through(named, true, replies);
                lemma_questions_alike(s, named, questions_after(proceed(named, true), replies));
            }
        } else {
            let found = local_addresses(s, adapter);
            if found.len() == 0 && is_up(adapter) {
                let direct = AdapterSurveyView { stage: SurveyStage::DirectAddress, ..s };
                let rest = replies.drop_first();
                if asked_address(replies[0]).len() == 0 {
                    let last = AdapterSurveyView { stage: SurveyStage::LastResort, ..direct };
                    let after = with_completed(last, asked_address(rest[0]));
                    let later = rest.drop_first();
                    assert(survey_advance(last, rest[0]) == proceed(after, false));
                    lemma_completed_reports(s, last, asked_address(rest[0]));
                    lemma_survey_goes_through(after, false, later);
                    assert(survey_outcome(last, rest) == outcome_after(
                        proceed(after, false),
                        later,
                    ));
                    assert(survey_outcome(direct, replies) == survey_outcome(last, rest));
                    assert(survey_questions(last, rest) == questions_after(
                        proceed(after, false),
                        later,
                    ));
                    lemma_questions_alike(s, after, survey_questions(last, rest));
                    lemma_one_more_question(s, last, survey_questions(last, rest));
                    assert(survey_questions(direct, replies) == seq![last] + survey_questions(
                        last,
                        rest,
                    ));
                    lemma_one_more_question(s, direct, survey_questions(direct, replies));
                } else {
                    let after = with_completed(direct, asked_address(replies[0]));
                    assert(survey_advance(direct, replies[0]) == proceed(after, false));
                    lemma_completed_reports(s, direct, asked_address(replies[0]));
                    lemma_survey_goes_through(after, false, rest);
                    assert(survey_outcome(direct, replies) == outcome_after(
                        proceed(after, false),
                        rest,
                    ));
                    assert(survey_questions(direct, replies) == questions_after(
                        proceed(after, false),
                        rest,
                    ));
                    lemma_questions_alike(s, after, survey_questions(direct, replies));
                    lemma_one_more_question(s, direct, survey_questions(direct, replies));
                }
            } else {
                let after = with_completed(s, found);
                lemma_completed_reports(s, s, found);
                lemma_survey_goes_through(after, false, replies);
                lemma_questions_alike(s, after, questions_after(proceed(after, false), replies));
            }
        }
    }
}

/// Two states of one survey report alike.
proof fn lemma_reports_alike(s: AdapterSurveyView, t: AdapterSurveyView)
    requires
        t.adapters == s.adapters,
        t.address_map == s.address_map,
        t.configurations == s.configurations,
        t.done == s.done,
        t.position == s.position,
        forall|i: int| 0 <= i < s.position ==> reports(s, #[trigger] s.done[i], s.adapters[i]),
    ensures
        forall|i: int| 0 <= i < t.position ==> reports(t, #[trigger] t.done[i], t.adapters[i]),
{
    assert forall|i: int| 0 <= i < t.position implies reports(
        t,
        #[trigger] t.done[i],
        t.adapters[i],
    ) by {
        assert(reports(s, s.done[i], s.adapters[i]));
    }
}

/// Completing the adapter at the position keeps what is reported, where the
/// addresses given are those held for it, if any are.
proof fn lemma_completed_reports(
    s: AdapterSurveyView,
    t: AdapterSurveyView,
    addresses: Seq<Seq<char>>,
)
    requires
        t.adapters == s.adapters,
        t.address_map == s.address_map,
        t.configurations == s.configurations,
        t.done == s.done,
        t.position == s.position,
        s.position < s.adapters.len(),
        s.done.len() == s.position,
        forall|i: int| 0 <= i < s.position ==> reports(s, #[trigger] s.done[i], s.adapters[i]),
        local_addresses(s, s.adapters[s.position as int]).len() > 0 ==> addresses
            == local_addresses(s, s.adapters[s.position as int]),
    ensures
        with_completed(t, addresses).done.len() == s.position + 1,
        forall|i: int|
            0 <= i < s.position + 1 ==> reports(
                with_completed(t, addresses),
                #[trigger] with_completed(t, addresses).done[i],
                s.adapters[i],
            ),
{
    let after = with_completed(t, addresses);
    assert forall|i: int| 0 <= i < s.position + 1 implies reports(
        after,
        #[trigger] after.done[i],
        s.adapters[i],
    ) by {
        if i < s.position {
            assert(after.done[i] == s.done[i]);
            assert(reports(s, s.done[i], s.adapters[i]));
        }
    }
}

/// What holds of the questions of a later state holds of them for an
/// earlier state of the same survey.
proof fn lemma_questions_alike(
    s: AdapterSurveyView,
    t: AdapterSurveyView,
    questions: Seq<AdapterSurveyView>,
)
    requires
        t.adapters == s.adapters,
        t.address_map == s.address_map,
        t.configurations == s.configurations,
        forall|k: int| 0 <= k < questions.len() ==> asks_where_needed(t, #[trigger] questions[k]),
    ensures
        forall|k: int| 0 <= k < questions.len() ==> asks_where_needed(s, #[trigger] questions[k]),
{
    assert forall|k: int| 0 <= k < questions.len() implies asks_where_needed(
        s,
        #[trigger] questions[k],
    ) by {
        assert(asks_where_needed(t, questions[k]));
    }
}

/// A question that is asked where it is needed, before questions of which
/// the same holds.
proof fn lemma_one_more_question(
    s: AdapterSurveyView,
    q: AdapterSurveyView,
    questions: Seq<AdapterSurveyView>,
)
    requires
        asks_where_needed(s, q),
        forall|k: int| 0 <= k < questions.len() ==> asks_where_needed(s, #[trigger] questions[k]),
    ensures
        forall|k: int|
            0 <= k < (seq![q] + questions).len() ==> asks_where_needed(
                s,
                #[trigger] (seq![q] + questions)[k],
            ),
{
    let all = seq![q] + questions;
    assert forall|k: int| 0 <= k < all.len() implies asks_where_needed(s, #[trigger] all[k]) by {
        if k > 0 {
            assert(all[k] == questions[k - 1]);
        }
    }
}

/// Where the three lists can be had and read, the survey ends well once
/// its questions are answered, with one entry for each adapter, in order.
/// An adapter for which the address map holds addresses is listed with
/// exactly those, and is never asked for its address: only an adapter that
/// is up and for which neither the address map nor its configuration holds
/// an address is asked.
pub proof fn law_survey_keeps_the_first_addresses(
    s: AdapterSurveyView,
    replies: Seq<Result<ExecutionResult, ErrorKind>>,
    adapters: Seq<ReportedAdapterView>,
    address_map: JsonTree,
    configurations: Seq<IpConfigurationView>,
)
    requires
        s.stage == SurveyStage::Adapters,
        replies.len() >= 3 + 3 * adapters.len(),
        listed::<ReportedAdapter>(replies[0]) == Ok::<Seq<ReportedAdapterView>, ErrorView>(
            adapters,
        ),
        replies[1] matches Ok(raw) && raw.exit_success && address_map_in(utf8_lossy(raw.stdout@))
            == Ok::<JsonTree, ErrorView>(address_map),
        listed::<IpConfiguration>(replies[2]) == Ok::<Seq<IpConfigurationView>, ErrorView>(
            configurations,
        ),
    ensures
        survey_outcome(s, replies) matches Some(Ok(v)) && v.len() == adapters.len() && forall|
            i: int,
        |
            0 <= i < v.len() ==> {
                &&& (#[trigger] v[i]).name == adapters[i].name
                &&& v[i].description == adapters[i].description
                &&& mapped_addresses(address_map, adapters[i].interface_index).len() > 0
                    ==> v[i].ip_addresses == mapped_addresses(
                    address_map,
                    adapters[i].interface_index,
                )
            },
        forall|k: int|
            0 <= k < survey_questions(s, replies).len() && asks_for_address(
                #[trigger] survey_questions(s, replies)[k],
            ) ==> {
                let at = survey_questions(s, replies)[k].position as int;
                &&& at < adapters.len()
                &&& mapped_addresses(address_map, adapters[at].interface_index).len() == 0
                &&& is_up(adapters[at])
            },
{
    let first = AdapterSurveyView { stage: SurveyStage::Addresses, adapters, ..s };
    let second = AdapterSurveyView { stage: SurveyStage::Configurations, address_map, ..first };
    let begun = AdapterSurveyView {
        configurations,
        position: 0,
        status: Seq::empty(),
        done: Seq::empty(),
        ..second
    };
    let r1 = replies.drop_first();
    let r2 = r1.drop_first();
    let r3 = r2.drop_first();
    assert(survey_advance(s, replies[0]) == SurveyAdvance::Go(first, powershell(ADDRESSES_SCRIPT@)));
    assert(survey_advance(first, r1[0]) == SurveyAdvance::Go(
        second,
        powershell(LIST_CONFIGURATIONS@),
    ));
    assert(survey_advance(second, r2[0]) == proceed(begun, false));
    lemma_survey_goes_through(begun, false, r3);
    assert(survey_outcome(second, r2) == outcome_after(proceed(begun, false), r3));
    assert(survey_outcome(first, r1) == survey_outcome(second, r2));
    assert(survey_outcome(s, replies) == survey_outcome(first, r1));
    let v = survey_outcome(s, replies)->Some_0->Ok_0;
    assert forall|i: int| 0 <= i < v.len() implies {
        &&& (#[trigger] v[i]).name == adapters[i].name
        &&& v[i].description == adapters[i].description
        &&& mapped_addresses(address_map, adapters[i].interface_index).len() > 0
            ==> v[i].ip_addresses == mapped_addresses(address_map, adapters[i].interface_index)
    } by {
        assert(reports(begun, v[i], adapters[i]));
    }
    let asked = questions_after(proceed(begun, false), r3);
    assert(survey_questions(second, r2) == asked);
    lemma_one_more_question(begun, second, asked);
    assert(survey_questions(first, r1) == seq![second] + asked);
    lemma_one_more_question(begun, first, seq![second] + asked);
    assert(survey_questions(s, replies) == seq![first] + (seq![second] + asked));
    assert forall|k: int|
        0 <= k < survey_questions(s, replies).len() && asks_for_address(
            #[trigger] survey_questions(s, replies)[k],
        ) implies {
        let at = survey_questions(s, replies)[k].position as int;
        &&& at < adapters.len()
        &&& mapped_addresses(address_map, adapters[at].interface_index).len() == 0
        &&& is_up(adapters[at])
    } by {
        assert(asks_where_needed(begun, survey_questions(s, replies)[k]));
    }
}

/// The survey before anything was run, and the command that lists the
/// adapters.
pub fn list_network_adapters_begin() -> (r: (AdapterSurvey, Invocation))
    ensures
        r.0@.stage == SurveyStage::Adapters,
        r.1@ == powershell(LIST_ADAPTERS@),
{
    (
        AdapterSurvey {
            stage: SurveyStage::Adapters,
            adapters: Vec::new(),
            address_map: JsonValue::Null,
            configurations: Vec::new(),
            position: 0,
            status: String::new(),
            done: Vec::new(),
        },
        Invocation::powershell(String::from_str(LIST_ADAPTERS)),
    )
}

fn complete_adapter(survey: &mut AdapterSurvey, addresses: Vec<String>)
    requires
        old(survey).position < old(survey).adapters.len(),
    ensures
        final(survey)@ == with_completed(old(survey)@, views(addresses@)),
        final(survey).stage == old(survey).stage,
{
    let ghost s = survey@;
    let adapter = &survey.adapters[survey.position];
    assert(s.adapters[s.position as int] == adapter@);
    let found = find_configuration(&survey.configurations, adapter.interface_index);
    let dns_servers = match found {
        Some(k) => copy_texts(&survey.configurations[k].dns_servers),
        None => {
            let r: Vec<String> = Vec::new();
            assert(views(r@) =~= Seq::<Seq<char>>::empty());
            r
        },
    };
    let gateway = match found {
        Some(k) => match &survey.configurations[k].gateway {
            Some(g) => if chars_of(g.as_str()).len() > 0 {
                g.clone()
            } else {
                String::from_str(NOT_AVAILABLE)
            },
            None => String::from_str(NOT_AVAILABLE),
        },
        None => String::from_str(NOT_AVAILABLE),
    };
    let info = NetworkAdapterInfo {
        name: adapter.name.clone(),
        description: adapter.description.clone(),
        mac_address: match &adapter.mac_address {
            Some(m) => m.clone(),
            None => String::from_str(NOT_AVAILABLE),
        },
        status: survey.status.clone(),
        ip_addresses: addresses,
        dns_servers,
        gateway,
    };
    assert(info@ == completed(s, s.adapters[s.position as int], views(addresses@)));
    proof {
        lemma_views_push(survey.done@, info);
    }
    survey.done.push(info);
    survey.position = survey.position + 1;
    survey.status = String::new();
}

fn local_addresses_of(survey: &AdapterSurvey) -> (r: Vec<String>)
    requires
        survey.position < survey.adapters.len(),
    ensures
        views(r@) == local_addresses(survey@, survey@.adapters[survey.position as int]),
{
    let adapter = &survey.adapters[survey.position];
    assert(survey@.adapters[survey.position as int] == adapter@);
    let first = addresses_in_map(&survey.address_map, adapter.interface_index);
    if first.len() > 0 {
        first
    } else {
        match find_configuration(&survey.configurations, adapter.interface_index) {
            Some(k) => copy_texts(&survey.configurations[k].addresses),
            None => {
                let r: Vec<String> = Vec::new();
                assert(views(r@) =~= Seq::<Seq<char>>::empty());
                r
            },
        }
    }
}

fn direct_invocation(index: u32) -> (r: Invocation)
    ensures
        r@ == powershell(direct_script(index)),
{
    let digits = text_of(&decimal_of(index as u128));
    Invocation::powershell(String::from_str(DIRECT_OPEN).concat(digits.as_str()).concat(DIRECT_CLOSE))
}

fn last_resort_invocation(index: u32) -> (r: Invocation)
    ensures
        r@ == powershell(last_resort_script(index)),
{
    let digits = text_of(&decimal_of(index as u128));
    Invocation::powershell(
        String::from_str(LAST_RESORT_OPEN).concat(digits.as_str()).concat(LAST_RESORT_CLOSE),
    )
}

fn continue_survey(survey: AdapterSurvey, settled: bool) -> (r: Step<
    AdapterSurvey,
    Result<Vec<NetworkAdapterInfo>, ErrorKind>,
>)
    ensures
        survey_step_is(r, proceed(survey@, settled)),
{
    let mut cur = survey;
    let mut known = settled;
    loop
        invariant
            proceed(cur@, known) == proceed(survey@, settled),
        decreases cur.adapters.len() - cur.position, if known { 0int } else { 1int },
    {
        if cur.position >= cur.adapters.len() {
            return Step::Done(Ok(cur.done));
        }
        let ghost s = cur@;
        assert(s.adapters[s.position as int] == cur.adapters@[cur.position as int]@);
        if !known {
            let status = cur.adapters[cur.position].status.clone();
            let description = chars_of(cur.adapters[cur.position].description.as_str());
            cur.status = status;
            if includes(&lower(&description), &chars_of(BLUETOOTH)) {
                cur.stage = SurveyStage::Bluetooth;
                return Step::Run(cur, Invocation::powershell(String::from_str(BLUETOOTH_STATUS)));
            }
            known = true;
        } else {
            let found = local_addresses_of(&cur);
            let index = cur.adapters[cur.position].interface_index;
            let up = same_text(cur.adapters[cur.position].status.as_str(), UP);
            if found.len() == 0 && up {
                cur.stage = SurveyStage::DirectAddress;
                return Step::Run(cur, direct_invocation(index));
            }
            complete_adapter(&mut cur, found);
            known = false;
        }
    }
}

fn read_asked_address(outcome: &Result<ExecutionResult, ErrorKind>) -> (r: Vec<String>)
    ensures
        views(r@) == asked_address(*outcome),
{
    let mut r: Vec<String> = Vec::new();
    assert(views(r@) =~= Seq::<Seq<char>>::empty());
    match outcome {
        Ok(raw) => if raw.exit_success {
            let out = trim(&chars_of(raw.stdout_text().as_str()));
            if out.len() > 0 {
                r.push(text_of(&out));
                assert(views(r@) =~= seq![out@]);
            }
        },
        Err(_) => {},
    }
    r
}

/// The address map that the decoding of a line gives: the object that the
/// line holds, or a report of malformed output with the start of the line.
pub fn address_map_of(decoding: Option<JsonValue>, line: &str) -> (r: Result<JsonValue, ErrorKind>)
    ensures
        match r {
            Ok(map) => decoding == Some(map) && map@ is Object,
            Err(e) => !(decoding matches Some(value) && value@ is Object) && e@ == (
            ErrorView::MalformedOutput { raw_snippet: snippet(line@) }),
        },
{
    match decoding {
        Some(value) => if value.is_object() {
            Ok(value)
        } else {
            Err(ErrorKind::MalformedOutput { raw_snippet: shown_start(line) })
        },
        None => Err(ErrorKind::MalformedOutput { raw_snippet: shown_start(line) }),
    }
}

fn read_address_map(out: &str) -> (r: Result<JsonValue, ErrorKind>)
    ensures
        match r {
            Ok(map) => address_map_in(out@) == Ok::<JsonTree, ErrorView>(map@),
            Err(e) => address_map_in(out@) == Err::<JsonTree, ErrorView>(e@),
        },
{
    let line = last_line(out);
    address_map_of(decode(line.as_str()), line.as_str())
}

/// The next step of the survey, given what the run that the last step
/// asked for came to.
pub fn list_network_adapters_resume(
    survey: AdapterSurvey,
    outcome: Result<ExecutionResult, ErrorKind>,
) -> (r: Step<AdapterSurvey, Result<Vec<NetworkAdapterInfo>, ErrorKind>>)
    ensures
        survey_step_is(r, survey_advance(survey@, outcome)),
{
    let mut survey = survey;
    match survey.stage {
        SurveyStage::Adapters => match list_records::<ReportedAdapter>(outcome) {
            Err(e) => Step::Done(Err(e)),
            Ok(adapters) => {
                survey.adapters = adapters;
                survey.stage = SurveyStage::Addresses;
                Step::Run(survey, Invocation::powershell(String::from_str(ADDRESSES_SCRIPT)))
            },
        },
        SurveyStage::Addresses => match outcome {
            Err(e) => Step::Done(Err(e)),
            Ok(raw) => if !raw.exit_success {
                Step::Done(Err(ErrorKind::ExternalToolFailed { stderr: raw.stderr_text() }))
            } else {
                match read_address_map(raw.stdout_text().as_str()) {
                    Err(e) => Step::Done(Err(e)),
                    Ok(map) => {
                        survey.address_map = map;
                        survey.stage = SurveyStage::Configurations;
                        Step::Run(
                            survey,
                            Invocation::powershell(String::from_str(LIST_CONFIGURATIONS)),
                        )
                    },
                }
            },
        },
        SurveyStage::Configurations => match list_records::<IpConfiguration>(outcome) {
            Err(e) => Step::Done(Err(e)),
            Ok(configurations) => {
                survey.configurations = configurations;
                survey.position = 0;
                survey.status = String::new();
                survey.done = Vec::new();
                assert(views(survey.done@) =~= Seq::<NetworkAdapterView>::empty());
                continue_survey(survey, false)
            },
        },
        SurveyStage::Bluetooth => {
            let works = match &outcome {
                Ok(raw) => raw.exit_success && includes(
                    &lower(&chars_of(raw.stdout_text().as_str())),
                    &chars_of(STATUS_OK),
                ),
                Err(_) => false,
            };
            if works {
                survey.status = String::from_str(UP);
            }
            continue_survey(survey, true)
        },
        SurveyStage::DirectAddress => {
            if survey.position >= survey.adapters.len() {
                return Step::Done(Ok(survey.done));
            }
            let found = read_asked_address(&outcome);
            if found.len() == 0 {
                let index = survey.adapters[survey.position].interface_index;
                assert(survey@.adapters[survey.position as int]
                    == survey.adapters@[survey.position as int]@);
                survey.stage = SurveyStage::LastResort;
                Step::Run(survey, last_resort_invocation(index))
            } else {
                complete_adapter(&mut survey, found);
                continue_survey(survey, false)
            }
        },
        SurveyStage::LastResort => {
            if survey.position >= survey.adapters.len() {
                return Step::Done(Ok(survey.done));
            }
            let found = read_asked_address(&outcome);
            complete_adapter(&mut survey, found);
            continue_survey(survey, false)
        },
    }
}

} // verus!
