//! The gateway's two shared tables: the registered devices, keyed by device
//! id, and the ids of the commands that await a result. Both are concurrent
//! hash tables of the `dashmap` crate; what each holds is named below, and
//! each operation the gateway uses states what it does to that.

use vstd::prelude::*;
use dashmap::{DashMap, DashSet};

verus! {

#[verifier::external_type_specification]
#[verifier::external_body]
#[verifier::reject_recursive_types(K)]
#[verifier::reject_recursive_types(V)]
#[verifier::reject_recursive_types(S)]
pub struct ExDashMap<K, V, S>(DashMap<K, V, S>);

#[verifier::external_type_specification]
#[verifier::external_body]
#[verifier::reject_recursive_types(K)]
#[verifier::reject_recursive_types(S)]
pub struct ExDashSet<K, S>(DashSet<K, S>);

/// A device registered with the gateway. The connection number stands for
/// the WebSocket connection over which the device registered.
#[derive(Debug, Clone, PartialEq, Eq)]
pub struct DeviceInfo {
    pub device_id: String,
    pub device_name: String,
    pub hostname: String,
    pub os: String,
    pub connection: u64,
}

/// A registered device by the characters of its fields.
pub struct DeviceView {
    pub device_id: Seq<char>,
    pub device_name: Seq<char>,
    pub hostname: Seq<char>,
    pub os: Seq<char>,
    pub connection: u64,
}

impl View for DeviceInfo {
    type V = DeviceView;

    open spec fn view(&self) -> DeviceView {
        DeviceView {
            device_id: self.device_id@,
            device_name: self.device_name@,
            hostname: self.hostname@,
            os: self.os@,
            connection: self.connection,
        }
    }
}

/// The table of registered devices, keyed by device id.
pub type DeviceTable = DashMap<String, DeviceInfo>;

/// The set of ids of the commands that await a result.
pub type CommandTable = DashSet<String>;

/// What a device table holds: each key's characters to its device.
pub uninterp spec fn device_entries(table: DeviceTable) -> Map<Seq<char>, DeviceView>;

/// What a command table holds: the characters of each command id in it.
pub uninterp spec fn command_entries(table: CommandTable) -> Set<Seq<char>>;

/// `DashMap::new`: a table that holds nothing.
#[verifier::external_body]
pub(crate) fn devices_new() -> (table: DeviceTable)
    ensures
        device_entries(table).dom() == Set::<Seq<char>>::empty(),
{
    DashMap::new()
}

/// `DashMap::insert`: the key now maps to the value; the earlier value of the
/// key, if there was one, is handed back.
#[verifier::external_body]
pub(crate) fn devices_insert(table: &mut DeviceTable, key: String, value: DeviceInfo) -> (previous: Option<DeviceInfo>)
    ensures
        device_entries(*final(table)) == device_entries(*old(table)).insert(key@, value@),
        previous is Some <==> device_entries(*old(table)).contains_key(key@),
        previous matches Some(p) ==> p@ == device_entries(*old(table))[key@],
{
    table.insert(key, value)
}

/// `DashMap::get`, with the entry's value copied out.
#[verifier::external_body]
pub(crate) fn devices_get(table: &DeviceTable, key: &str) -> (found: Option<DeviceInfo>)
    ensures
        found is Some <==> device_entries(*table).contains_key(key@),
        found matches Some(d) ==> d@ == device_entries(*table)[key@],
{
    match table.get(key) {
        Some(entry) => Some(entry.value().clone()),
        None => None,
    }
}

/// `DashMap::remove`: the key maps to nothing any more; its entry, if there
/// was one, is handed back.
#[verifier::external_body]
pub(crate) fn devices_remove(table: &mut DeviceTable, key: &str) -> (removed: Option<(String, DeviceInfo)>)
    ensures
        device_entries(*final(table)) == device_entries(*old(table)).remove(key@),
        removed is Some <==> device_entries(*old(table)).contains_key(key@),
        removed matches Some(e) ==> e.0@ == key@ && e.1@ == device_entries(*old(table))[key@],
{
    table.remove(key)
}

/// `DashMap::iter`, with each entry copied out as a key and a value. Each
/// entry comes out exactly once; the order is that of the table's hashing,
/// which is not stated.
#[verifier::external_body]
pub(crate) fn devices_entries(table: &DeviceTable) -> (entries: Vec<(String, DeviceInfo)>)
    ensures
        forall|i: int| 0 <= i < entries@.len() ==>
            #[trigger] device_entries(*table).contains_key(entries@[i].0@)
            && device_entries(*table)[entries@[i].0@] == entries@[i].1@,
        forall|i: int, j: int| 0 <= i < j < entries@.len() ==>
            #[trigger] entries@[i].0@ != #[trigger] entries@[j].0@,
        forall|k: Seq<char>| #[trigger] device_entries(*table).contains_key(k) ==>
            exists|i: int| 0 <= i < entries@.len() && #[trigger] entries@[i].0@ == k,
{
    table.iter().map(|entry| (entry.key().clone(), entry.value().clone())).collect()
}

/// `DashSet::new`: a set that holds nothing.
#[verifier::external_body]
pub(crate) fn commands_new() -> (table: CommandTable)
    ensures
        command_entries(table) == Set::<Seq<char>>::empty(),
{
    DashSet::new()
}

/// `DashSet::insert`: the key is now in the set; the result says whether it
/// was absent before.
#[verifier::external_body]
pub(crate) fn commands_insert(table: &mut CommandTable, key: String) -> (added: bool)
    ensures
        command_entries(*final(table)) == command_entries(*old(table)).insert(key@),
        added == !command_entries(*old(table)).contains(key@),
{
    table.insert(key)
}

/// `DashSet::remove`: the key is no longer in the set; the stored key is
/// handed back if it was there.
#[verifier::external_body]
pub(crate) fn commands_remove(table: &mut CommandTable, key: &str) -> (removed: Option<String>)
    ensures
        command_entries(*final(table)) == command_entries(*old(table)).remove(key@),
        removed is Some <==> command_entries(*old(table)).contains(key@),
        removed matches Some(k) ==> k@ == key@,
{
    table.remove(key)
}

} // verus!
