//! The management API gateway's logic: endpoint addresses of the two API
//! families, the fallback rule between them, the authentication decisions and
//! the reading of response bodies.
use vstd::prelude::*;
use crate::evaluate::{HardwareInfo, VmDetail};
use crate::json::{Json, json_get, json_int, json_str, unwrap_envelope};
use crate::model::{PowerState, ToolsStatus, power_state_of, tools_status_of};

verus! {

/// HTTP status "not found": the only status that sends a call to the legacy
/// endpoint family.
pub const STATUS_NOT_FOUND: u16 = 404;

/// The two endpoint families: the current one under `/api`, the legacy one
/// under `/rest`.
#[derive(Clone, Copy, Debug, PartialEq, Eq, Structural)]
pub enum Endpoint {
    Primary,
    Legacy,
}

#[derive(Clone, Copy, Debug, PartialEq, Eq, Structural)]
pub enum GatewayError {
    /// No session, or the request could not be carried out.
    Transport,
    /// The response did not have the expected shape.
    Protocol,
}

/// What a read answered with a given status leads to.
#[derive(Clone, Copy, Debug, PartialEq, Eq, Structural)]
pub enum StatusStep {
    /// Read the body.
    Accept,
    /// Ask the legacy family the same thing.
    RetryLegacy,
    /// The call failed; it is not retried.
    Fail,
}

/// Decides on the status of a read on the primary family: a success is
/// read, "not found" is retried on the legacy family, anything else fails.
pub fn after_primary_status(status: u16) -> (r: StatusStep)
    ensures
        is_success(status) ==> r == StatusStep::Accept,
        status == STATUS_NOT_FOUND ==> r == StatusStep::RetryLegacy,
        !is_success(status) && status != STATUS_NOT_FOUND ==> r == StatusStep::Fail,
{
    if 200 <= status && status <= 299 {
        StatusStep::Accept
    } else if status == STATUS_NOT_FOUND {
        StatusStep::RetryLegacy
    } else {
        StatusStep::Fail
    }
}

/// Decides on the status of a read on the legacy family: a success is read,
/// anything else fails.
pub fn after_legacy_status(status: u16) -> (r: StatusStep)
    ensures
        is_success(status) ==> r == StatusStep::Accept,
        !is_success(status) ==> r == StatusStep::Fail,
{
    if 200 <= status && status <= 299 {
        StatusStep::Accept
    } else {
        StatusStep::Fail
    }
}

pub open spec fn is_success(status: u16) -> bool {
    200 <= status <= 299
}

/// What an authentication answer leads to.
pub enum AuthStep {
    /// A session token was granted.
    Authenticated(String),
    /// Ask the legacy family.
    TryLegacy,
    /// Both families turned the credentials down.
    Rejected,
    /// A success answer carried no token.
    Malformed,
}

/// The session token of a legacy answer: the string under `value`, or the
/// body itself where it is a string.
pub open spec fn legacy_token(body: Json) -> Option<Seq<char>> {
    match json_str(json_get(body, "value"@)) {
        Some(t) => Some(t),
        None => json_str(Some(body)),
    }
}

/// Decides on the answer of the primary family. A failed request counts as a
/// non-success status.
pub fn on_primary_auth(status: u16, body: &Json) -> (r: AuthStep)
    ensures
        !is_success(status) ==> r is TryLegacy,
        is_success(status) ==> match json_str(Some(*body)) {
            Some(t) => (r matches AuthStep::Authenticated(s) && s@ == t),
            None => r is Malformed,
        },
{
    if !(200 <= status && status <= 299) {
        return AuthStep::TryLegacy;
    }
    match body.as_str() {
        Some(t) => AuthStep::Authenticated(t.clone()),
        None => AuthStep::Malformed,
    }
}

/// Decides on the answer of the legacy family.
pub fn on_legacy_auth(status: u16, body: &Json) -> (r: AuthStep)
    ensures
        !is_success(status) ==> r is Rejected,
        is_success(status) ==> match legacy_token(*body) {
            Some(t) => (r matches AuthStep::Authenticated(s) && s@ == t),
            None => r is Malformed,
        },
{
    if !(200 <= status && status <= 299) {
        return AuthStep::Rejected;
    }
    let from_value = match body.get("value") {
        Some(v) => v.as_str(),
        None => None,
    };
    match from_value {
        Some(t) => AuthStep::Authenticated(t.clone()),
        None => match body.as_str() {
            Some(t) => AuthStep::Authenticated(t.clone()),
            None => AuthStep::Malformed,
        },
    }
}

/// One entry of the inventory.
pub struct VmRecord {
    pub vm: String,
    pub name: String,
}

/// The items of an inventory answer: the array under `value` (nothing where
/// `value` is no array), else the body where it is an array, else nothing.
pub open spec fn inventory_items(body: Json) -> Seq<Json> {
    match json_get(body, "value"@) {
        Some(Json::Array(v)) => v@,
        Some(_) => Seq::empty(),
        None => match body {
            Json::Array(v) => v@,
            _ => Seq::empty(),
        },
    }
}

pub open spec fn str_or(j: Option<Json>, default: Seq<char>) -> Seq<char> {
    match json_str(j) {
        Some(s) => s,
        None => default,
    }
}

/// Whether a body has the shape of an inventory answer: an array, or an
/// object whose `value` is an array.
pub open spec fn is_inventory(body: Json) -> bool {
    (json_get(body, "value"@) matches Some(Json::Array(_))) || (json_get(body, "value"@) is None
        && body is Array)
}

/// The identifier of an inventory item, `unknown` where it has none.
pub open spec fn record_vm(item: Json) -> Seq<char> {
    str_or(json_get(item, "vm"@), "unknown"@)
}

/// The display name of an inventory item, `Unknown` where it has none.
pub open spec fn record_name(item: Json) -> Seq<char> {
    str_or(json_get(item, "name"@), "Unknown"@)
}

fn string_or(j: Option<&Json>, default: &str) -> (r: String)
    ensures
        r@ == str_or(
            match j {
                Some(v) => Some(*v),
                None => None,
            },
            default@,
        ),
{
    match j {
        Some(v) => match v.as_str() {
            Some(s) => s.clone(),
            None => String::from_str(default),
        },
        None => String::from_str(default),
    }
}

fn record_from(item: &Json) -> (r: VmRecord)
    ensures
        r.vm@ == record_vm(*item),
        r.name@ == record_name(*item),
{
    VmRecord { vm: string_or(item.get("vm"), "unknown"), name: string_or(item.get("name"), "Unknown") }
}

fn inventory_items_of(body: &Json) -> (r: Option<&Vec<Json>>)
    ensures
        r is Some <==> is_inventory(*body),
        r matches Some(v) ==> v@ == inventory_items(*body),
{
    match body.get("value") {
        Some(v) => v.as_array(),
        None => body.as_array(),
    }
}

/// Reads an inventory answer, wrapped in an envelope or a bare array; a
/// protocol error for a body of any other shape.
pub fn vm_records_from(body: &Json) -> (r: Result<Vec<VmRecord>, GatewayError>)
    ensures
        !is_inventory(*body) ==> r == Err::<Vec<VmRecord>, GatewayError>(GatewayError::Protocol),
        is_inventory(*body) ==> (r matches Ok(v) && v@.len() == inventory_items(*body).len()
            && forall|i: int|
            0 <= i < v@.len() ==> v@[i].vm@ == record_vm(#[trigger] inventory_items(*body)[i])
                && v@[i].name@ == record_name(inventory_items(*body)[i])),
{
    let mut out: Vec<VmRecord> = Vec::new();
    match inventory_items_of(body) {
        Some(items) => {
            let mut i: usize = 0;
            while i < items.len()
                invariant
                    i <= items.len(),
                    items@ == inventory_items(*body),
                    out@.len() == i,
                    forall|k: int|
                        0 <= k < i ==> out@[k].vm@ == record_vm(#[trigger] items@[k])
                            && out@[k].name@ == record_name(items@[k]),
                decreases items.len() - i,
            {
                out.push(record_from(&items[i]));
                i += 1;
            }
            Ok(out)
        },
        None => Err(GatewayError::Protocol),
    }
}

/// Reads the answer of a lookup by name: its first item, if any; a protocol
/// error for a body that is no inventory answer.
pub fn first_vm_record(body: &Json) -> (r: Result<Option<VmRecord>, GatewayError>)
    ensures
        !is_inventory(*body) ==> r == Err::<Option<VmRecord>, GatewayError>(
            GatewayError::Protocol,
        ),
        is_inventory(*body) && inventory_items(*body).len() == 0 ==> r == Ok::<
            Option<VmRecord>,
            GatewayError,
        >(None),
        is_inventory(*body) && inventory_items(*body).len() > 0 ==> (r matches Ok(Some(rec))
            && rec.vm@ == record_vm(inventory_items(*body)[0]) && rec.name@ == record_name(
            inventory_items(*body)[0],
        )),
{
    match inventory_items_of(body) {
        Some(items) => {
            if items.len() > 0 {
                Ok(Some(record_from(&items[0])))
            } else {
                Ok(None)
            }
        },
        None => Err(GatewayError::Protocol),
    }
}

pub open spec fn opt_json(j: Option<&Json>) -> Option<Json> {
    match j {
        Some(v) => Some(*v),
        None => None,
    }
}

/// A member of a member; `None` where either is missing.
pub open spec fn json_get2(j: Json, a: Seq<char>, b: Seq<char>) -> Option<Json> {
    match json_get(j, a) {
        Some(inner) => json_get(inner, b),
        None => None,
    }
}

/// The detail that a detail answer gives.
pub open spec fn detail_matches(d: VmDetail, body: Json) -> bool {
    let p = unwrap_envelope(body);
    &&& d.power_state == power_state_of(str_or(json_get(p, "power_state"@), "UNKNOWN"@))
    &&& d.tools_running_status == tools_status_of(
        str_or(json_get2(p, "guest_OS"@, "tools_running_status"@), "UNKNOWN"@),
    )
    &&& crate::model::opt_str_view(d.boot_time) == json_str(json_get(p, "boot_time"@))
    &&& crate::model::opt_str_view(d.host) == json_str(json_get(p, "host"@))
}

fn opt_string(j: Option<&Json>) -> (r: Option<String>)
    ensures
        crate::model::opt_str_view(r) == json_str(opt_json(j)),
{
    match j {
        Some(v) => match v.as_str() {
            Some(s) => Some(s.clone()),
            None => None,
        },
        None => None,
    }
}

/// Reads a detail answer: power state, tooling state, boot time and host.
pub fn vm_detail_from(body: &Json) -> (r: VmDetail)
    ensures
        detail_matches(r, *body),
{
    let p = body.unwrap_envelope();
    let power = string_or(p.get("power_state"), "UNKNOWN");
    let tools_json = match p.get("guest_OS") {
        Some(g) => g.get("tools_running_status"),
        None => None,
    };
    let tools = string_or(tools_json, "UNKNOWN");
    VmDetail {
        power_state: PowerState::from_api(power.as_str()),
        tools_running_status: ToolsStatus::from_api(tools.as_str()),
        boot_time: opt_string(p.get("boot_time")),
        host: opt_string(p.get("host")),
    }
}

/// A count read from a hardware answer: the integer where it is one in
/// `0..=65535`, else one.
pub open spec fn count_or_one(j: Option<Json>) -> u16 {
    match json_int(j) {
        Some(n) => if 0 <= n <= 65535 {
            n as u16
        } else {
            1
        },
        None => 1,
    }
}

/// A size read from a hardware answer: the integer where it fits a `u64`,
/// else zero.
pub open spec fn size_or_zero(j: Option<Json>) -> u64 {
    match json_int(j) {
        Some(n) => if 0 <= n <= u64::MAX {
            n as u64
        } else {
            0
        },
        None => 0,
    }
}

fn read_count(j: Option<&Json>) -> (r: u16)
    ensures
        r == count_or_one(opt_json(j)),
{
    match j {
        Some(v) => match v.as_int() {
            Some(n) => if 0 <= n && n <= 65535 {
                n as u16
            } else {
                1
            },
            None => 1,
        },
        None => 1,
    }
}

fn read_size(j: Option<&Json>) -> (r: u64)
    ensures
        r == size_or_zero(opt_json(j)),
{
    match j {
        Some(v) => match v.as_int() {
            Some(n) => if 0 <= n && n <= u64::MAX as i128 {
                n as u64
            } else {
                0
            },
            None => 0,
        },
        None => 0,
    }
}

/// Reads the CPU and memory answers of a machine.
pub fn hardware_from(cpu_body: &Json, memory_body: &Json) -> (r: HardwareInfo)
    ensures
        r.cpu_count == count_or_one(json_get(unwrap_envelope(*cpu_body), "count"@)),
        r.cores_per_socket == count_or_one(
            json_get(unwrap_envelope(*cpu_body), "cores_per_socket"@),
        ),
        r.memory_limit_mb == size_or_zero(json_get(unwrap_envelope(*memory_body), "size_MiB"@)),
{
    let cpu = cpu_body.unwrap_envelope();
    let mem = memory_body.unwrap_envelope();
    HardwareInfo {
        cpu_count: read_count(cpu.get("count")),
        cores_per_socket: read_count(cpu.get("cores_per_socket")),
        memory_limit_mb: read_size(mem.get("size_MiB")),
    }
}

/// Reads a host answer: the host's name, if it has one.
pub fn host_name_from(body: &Json) -> (r: Option<String>)
    ensures
        crate::model::opt_str_view(r) == json_str(json_get(unwrap_envelope(*body), "name"@)),
{
    opt_string(body.unwrap_envelope().get("name"))
}

/// Connection settings and session state of one gateway. The HTTP client
/// itself belongs to the caller, which sends the requests this value
/// describes.
pub struct VCenterAPIClient {
    pub vcenter_host: String,
    pub base_url: String,
    pub rest_url: String,
    pub username: String,
    pub password: String,
    pub verify_ssl: bool,
    pub session_id: Option<String>,
}

impl VCenterAPIClient {
    pub fn new(vcenter_host: String, username: String, password: String, verify_ssl: bool) -> (r:
        VCenterAPIClient)
        ensures
            r.base_url@ == "https://"@ + vcenter_host@ + "/api"@,
            r.rest_url@ == "https://"@ + vcenter_host@ + "/rest"@,
            r.vcenter_host@ == vcenter_host@,
            r.username@ == username@,
            r.password@ == password@,
            r.verify_ssl == verify_ssl,
            r.session_id is None,
    {
        let base_url = String::from_str("https://").concat(vcenter_host.as_str()).concat("/api");
        let rest_url = String::from_str("https://").concat(vcenter_host.as_str()).concat("/rest");
        VCenterAPIClient {
            vcenter_host,
            base_url,
            rest_url,
            username,
            password,
            verify_ssl,
            session_id: None,
        }
    }

    pub open spec fn spec_base(&self, e: Endpoint) -> Seq<char> {
        match e {
            Endpoint::Primary => self.base_url@,
            Endpoint::Legacy => self.rest_url@,
        }
    }

    /// Root address of an endpoint family.
    pub fn base(&self, e: Endpoint) -> (r: &String)
        ensures
            r@ == self.spec_base(e),
    {
        match e {
            Endpoint::Primary => &self.base_url,
            Endpoint::Legacy => &self.rest_url,
        }
    }

    /// Where a session is requested.
    pub fn session_url(&self, e: Endpoint) -> (r: String)
        ensures
            e == Endpoint::Primary ==> r@ == self.base_url@ + "/session"@,
            e == Endpoint::Legacy ==> r@ == self.rest_url@ + "/com/vmware/cis/session"@,
    {
        match e {
            Endpoint::Primary => self.base_url.clone().concat("/session"),
            Endpoint::Legacy => self.rest_url.clone().concat("/com/vmware/cis/session"),
        }
    }

    /// Where the inventory is listed.
    pub fn vm_list_url(&self, e: Endpoint) -> (r: String)
        ensures
            r@ == self.spec_base(e) + "/vcenter/vm"@,
    {
        self.base(e).clone().concat("/vcenter/vm")
    }

    /// Where the inventory is filtered by an exact name.
    pub fn vm_by_name_url(&self, e: Endpoint, name: &str) -> (r: String)
        ensures
            r@ == self.spec_base(e) + "/vcenter/vm?filter.names="@ + name@,
    {
        self.base(e).clone().concat("/vcenter/vm?filter.names=").concat(name)
    }

    /// Where the detail of a machine is read.
    pub fn vm_detail_url(&self, e: Endpoint, vm_id: &str) -> (r: String)
        ensures
            r@ == self.spec_base(e) + "/vcenter/vm/"@ + vm_id@,
    {
        self.base(e).clone().concat("/vcenter/vm/").concat(vm_id)
    }

    /// Where the CPU configuration of a machine is read.
    pub fn vm_cpu_url(&self, e: Endpoint, vm_id: &str) -> (r: String)
        ensures
            r@ == self.spec_base(e) + "/vcenter/vm/"@ + vm_id@ + "/hardware/cpu"@,
    {
        self.base(e).clone().concat("/vcenter/vm/").concat(vm_id).concat("/hardware/cpu")
    }

    /// Where the memory configuration of a machine is read.
    pub fn vm_memory_url(&self, e: Endpoint, vm_id: &str) -> (r: String)
        ensures
            r@ == self.spec_base(e) + "/vcenter/vm/"@ + vm_id@ + "/hardware/memory"@,
    {
        self.base(e).clone().concat("/vcenter/vm/").concat(vm_id).concat("/hardware/memory")
    }

    /// Where a host is read.
    pub fn host_url(&self, e: Endpoint, host_id: &str) -> (r: String)
        ensures
            r@ == self.spec_base(e) + "/vcenter/host/"@ + host_id@,
    {
        self.base(e).clone().concat("/vcenter/host/").concat(host_id)
    }

    /// The session token that requests carry; a transport error where no
    /// session was granted.
    pub fn session(&self) -> (r: Result<&String, GatewayError>)
        ensures
            match self.session_id {
                Some(t) => (r matches Ok(s) && s@ == t@),
                None => r == Err::<&String, GatewayError>(GatewayError::Transport),
            },
    {
        match &self.session_id {
            Some(t) => Ok(t),
            None => Err(GatewayError::Transport),
        }
    }

    /// Concludes an authentication: stores a granted token and reports
    /// `true`; reports `false` where the credentials were turned down, and a
    /// protocol error where a success answer held no token.
    pub fn conclude_auth(&mut self, step: AuthStep) -> (r: Result<bool, GatewayError>)
        requires
            !(step is TryLegacy),
        ensures
            match step {
                AuthStep::Authenticated(t) => r == Ok::<bool, GatewayError>(true)
                    && final(self).session_id == Some(t),
                AuthStep::Rejected => r == Ok::<bool, GatewayError>(false)
                    && final(self).session_id == old(self).session_id,
                _ => r == Err::<bool, GatewayError>(GatewayError::Protocol)
                    && final(self).session_id == old(self).session_id,
            },
            final(self).base_url == old(self).base_url,
            final(self).rest_url == old(self).rest_url,
            final(self).vcenter_host == old(self).vcenter_host,
            final(self).username == old(self).username,
            final(self).password == old(self).password,
            final(self).verify_ssl == old(self).verify_ssl,
    {
        match step {
            AuthStep::Authenticated(t) => {
                self.session_id = Some(t);
                Ok(true)
            },
            AuthStep::Rejected => Ok(false),
            _ => Err(GatewayError::Protocol),
        }
    }

    /// The request that ends the session: its address and token, where a
    /// session exists.
    pub fn disconnect_request(&self) -> (r: Option<(String, String)>)
        ensures
            match self.session_id {
                Some(t) => (r matches Some((u, s)) && u@ == self.base_url@ + "/session"@ && s@
                    == t@),
                None => r is None,
            },
    {
        match &self.session_id {
            Some(t) => Some((self.base_url.clone().concat("/session"), t.clone())),
            None => None,
        }
    }
}

} // verus!
