use vstd::prelude::*;
use crate::container::{
    BindingRecord, ContainerDetail, ContainerInfo, InspectRecord, MountInfo, MountRecord,
    PortMapping, PortRecord, SummaryRecord,
};
use crate::ports::{decimal_u16, key_port, key_protocol, split_port_key, strip_name_separator, strip_separator};
use crate::text::texts;

verus! {

/// Mathematical model of a [`PortMapping`].
pub struct PortView {
    pub private_port: u16,
    pub public_port: Option<u16>,
    pub protocol: Seq<char>,
}

impl View for PortMapping {
    type V = PortView;

    open spec fn view(&self) -> PortView {
        PortView {
            private_port: self.private_port,
            public_port: self.public_port,
            protocol: self.protocol@,
        }
    }
}

pub open spec fn port_views(v: Seq<PortMapping>) -> Seq<PortView> {
    v.map_values(|m: PortMapping| m@)
}

/// The text, or the empty text where there is none.
pub open spec fn text_or_empty(o: Option<String>) -> Seq<char> {
    match o {
        Some(s) => s@,
        None => Seq::empty(),
    }
}

fn take_text(o: Option<String>) -> (r: String)
    ensures
        r@ == text_or_empty(o),
{
    match o {
        Some(s) => s,
        None => String::new(),
    }
}

/// A listed port, with `tcp` where the engine names no protocol.
pub open spec fn record_port(p: PortRecord) -> PortView {
    PortView {
        private_port: p.private_port,
        public_port: p.public_port,
        protocol: match p.protocol {
            Some(t) => t@,
            None => "tcp"@,
        },
    }
}

/// The display name of a listed container: its first name without its
/// leading separator, or empty.
pub open spec fn summary_name(names: Option<Vec<String>>) -> Seq<char> {
    match names {
        Some(v) => if v@.len() > 0 { strip_separator(v@[0]@) } else { Seq::empty() },
        None => Seq::empty(),
    }
}

/// The ports of a listed container, each as [`record_port`] gives it.
pub open spec fn summary_ports(ports: Option<Vec<PortRecord>>) -> Seq<PortView> {
    match ports {
        Some(v) => summary_port_views(v@),
        None => Seq::empty(),
    }
}

pub open spec fn summary_port_views(v: Seq<PortRecord>) -> Seq<PortView> {
    v.map_values(|p: PortRecord| record_port(p))
}

/// `info` is what the listing record `rec` reports.
pub open spec fn summary_of(rec: SummaryRecord, info: ContainerInfo) -> bool {
    &&& info.id@ == text_or_empty(rec.id)
    &&& info.name@ == summary_name(rec.names)
    &&& info.image@ == text_or_empty(rec.image)
    &&& info.state@ == text_or_empty(rec.state)
    &&& info.status@ == text_or_empty(rec.status)
    &&& info.created == match rec.created { Some(c) => c, None => 0 }
    &&& port_views(info.ports@) == summary_ports(rec.ports)
}

fn first_name(names: &Option<Vec<String>>) -> (r: String)
    ensures
        r@ == summary_name(*names),
{
    match names {
        Some(v) => if v.len() > 0 { strip_name_separator(v[0].as_str()) } else { String::new() },
        None => String::new(),
    }
}

/// Maps a listed container to its summary.
pub fn container_summary(rec: SummaryRecord) -> (r: ContainerInfo)
    ensures
        summary_of(rec, r),
{
    let name = first_name(&rec.names);
    let mut ports: Vec<PortMapping> = Vec::new();
    match &rec.ports {
        Some(v) => {
            let mut i: usize = 0;
            while i < v.len()
                invariant
                    i <= v.len(),
                    ports@.len() == i,
                    port_views(ports@) == summary_port_views(v@.take(i as int)),
                decreases v.len() - i,
            {
                let p = &v[i];
                let protocol = match &p.protocol {
                    Some(t) => t.clone(),
                    None => String::from_str("tcp"),
                };
                let ghost prev = ports@;
                ports.push(PortMapping {
                    private_port: p.private_port,
                    public_port: p.public_port,
                    protocol,
                });
                assert(ports@.last()@ == record_port(v@[i as int]));
                assert forall|k: int| 0 <= k <= i implies port_views(ports@)[k] == summary_port_views(v@.take(i + 1))[k] by {
                    if k < i {
                        assert(ports@[k] == prev[k]);
                        assert(port_views(prev)[k] == summary_port_views(v@.take(i as int))[k]);
                        assert(v@.take(i as int)[k] == v@.take(i + 1)[k]);
                    }
                }
                assert(port_views(ports@) =~= summary_port_views(v@.take(i + 1)));
                i = i + 1;
            }
            assert(v@.take(v.len() as int) =~= v@);
        },
        None => {
            assert(port_views(ports@) =~= Seq::<PortView>::empty());
        },
    }
    ContainerInfo {
        id: take_text(rec.id),
        name,
        image: take_text(rec.image),
        state: take_text(rec.state),
        status: take_text(rec.status),
        created: match rec.created {
            Some(c) => c,
            None => 0,
        },
        ports,
    }
}

/// The host port of one binding, where it is a port number.
pub open spec fn host_port_value(h: Option<String>) -> Option<u16> {
    match h {
        Some(s) => decimal_u16(s@),
        None => None,
    }
}

/// The ports of one port-map entry: one for each host binding, all with the
/// entry's container port and protocol.
pub open spec fn binding_ports(b: BindingRecord) -> Seq<PortView> {
    match b.host_ports {
        Some(h) => Seq::new(
            h@.len(),
            |i: int|
                PortView {
                    private_port: key_port(b.key@),
                    public_port: host_port_value(h@[i]),
                    protocol: key_protocol(b.key@),
                },
        ),
        None => Seq::empty(),
    }
}

/// The ports of all entries of a port map, entry after entry.
pub open spec fn map_ports(bs: Seq<BindingRecord>) -> Seq<PortView>
    decreases bs.len(),
{
    if bs.len() == 0 {
        Seq::empty()
    } else {
        map_ports(bs.drop_last()) + binding_ports(bs.last())
    }
}

/// The host port of one binding, read as a port number.
fn host_port(h: &Option<String>) -> (r: Option<u16>)
    ensures
        r == host_port_value(*h),
{
    match h {
        Some(s) => crate::ports::parse_port(s.as_str()),
        None => None,
    }
}

/// Flattens the engine's port map (entries of a `port/protocol` key and its
/// host bindings) into a list of ports, entry after entry.
pub fn normalize_port_map(bindings: &Vec<BindingRecord>) -> (r: Vec<PortMapping>)
    ensures
        port_views(r@) == map_ports(bindings@),
{
    let mut out: Vec<PortMapping> = Vec::new();
    let mut i: usize = 0;
    while i < bindings.len()
        invariant
            i <= bindings.len(),
            port_views(out@) == map_ports(bindings@.take(i as int)),
        decreases bindings.len() - i,
    {
        let b = &bindings[i];
        let ghost before = out@;
        assert(port_views(before).len() == before.len());
        let (private_port, protocol) = split_port_key(b.key.as_str());
        match &b.host_ports {
            Some(h) => {
                let mut j: usize = 0;
                while j < h.len()
                    invariant
                        j <= h.len(),
                        out@.len() == before.len() + j,
                        b.host_ports == Some(*h),
                        private_port == key_port(b.key@),
                        protocol@ == key_protocol(b.key@),
                        port_views(out@) == port_views(before) + binding_ports(*b).take(j as int),
                    decreases h.len() - j,
                {
                    let ghost prev = out@;
                    out.push(PortMapping {
                        private_port,
                        public_port: host_port(&h[j]),
                        protocol: protocol.clone(),
                    });
                    assert(out@.last()@ == binding_ports(*b)[j as int]);
                    let ghost rhs = port_views(before) + binding_ports(*b).take(j + 1);
                    assert forall|k: int| 0 <= k < out@.len() implies port_views(out@)[k] == rhs[k] by {
                        if k < prev.len() {
                            assert(out@[k] == prev[k]);
                            let lhs_prev = port_views(before) + binding_ports(*b).take(j as int);
                            assert(port_views(prev)[k] == lhs_prev[k]);
                            if k >= before.len() {
                                assert(binding_ports(*b).take(j as int)[k - before.len()]
                                    == binding_ports(*b).take(j + 1)[k - before.len()]);
                            }
                        }
                    }
                    assert(port_views(out@) =~= port_views(before) + binding_ports(*b).take(j + 1));
                    j = j + 1;
                }
                assert(binding_ports(*b).take(h.len() as int) =~= binding_ports(*b));
            },
            None => {},
        }
        assert(bindings@.take(i + 1).drop_last() =~= bindings@.take(i as int));
        assert(port_views(out@) =~= map_ports(bindings@.take(i + 1)));
        i = i + 1;
    }
    assert(bindings@.take(bindings.len() as int) =~= bindings@);
    out
}

} // verus!

verus! {

/// The creation time, in seconds since the epoch, that chrono reads from an
/// RFC 3339 text, if it reads one.
pub uninterp spec fn utc_seconds_of(s: Seq<char>) -> Option<i64>;

/// Relies on chrono's `FromStr for DateTime<Utc>` and `DateTime::timestamp`:
/// the result depends on the text alone.
#[verifier::external_body]
fn parse_utc_seconds(s: &str) -> (r: Option<i64>)
    ensures
        r == utc_seconds_of(s@),
{
    match s.parse::<chrono::DateTime<chrono::Utc>>() {
        Ok(dt) => Some(dt.timestamp()),
        Err(_) => None,
    }
}

/// The creation time of an inspected container, 0 where it has none that
/// reads as a time.
pub open spec fn created_seconds(created: Option<String>) -> i64 {
    match created {
        Some(s) => match utc_seconds_of(s@) {
            Some(t) => t,
            None => 0,
        },
        None => 0,
    }
}

/// The state of an inspected container, `unknown` where it reports none.
pub open spec fn state_text(status: Option<String>) -> Seq<char> {
    match status {
        Some(s) => s@,
        None => "unknown"@,
    }
}

/// Mathematical model of a [`MountInfo`].
pub struct MountView {
    pub source: Seq<char>,
    pub destination: Seq<char>,
    pub mode: Seq<char>,
}

impl View for MountInfo {
    type V = MountView;

    open spec fn view(&self) -> MountView {
        MountView { source: self.source@, destination: self.destination@, mode: self.mode@ }
    }
}

pub open spec fn record_mount(m: MountRecord) -> MountView {
    MountView {
        source: text_or_empty(m.source),
        destination: text_or_empty(m.destination),
        mode: text_or_empty(m.mode),
    }
}

pub open spec fn record_mounts(ms: Option<Vec<MountRecord>>) -> Seq<MountView> {
    match ms {
        Some(v) => v@.map_values(|m: MountRecord| record_mount(m)),
        None => Seq::empty(),
    }
}

pub open spec fn record_env(env: Option<Vec<String>>) -> Seq<Seq<char>> {
    match env {
        Some(v) => texts(v@),
        None => Seq::empty(),
    }
}

pub open spec fn record_ports(ports: Option<Vec<BindingRecord>>) -> Seq<PortView> {
    match ports {
        Some(v) => map_ports(v@),
        None => Seq::empty(),
    }
}

/// `d` is what the inspection record `rec` reports, with `created` as its
/// creation time.
pub open spec fn detail_of(rec: InspectRecord, created: i64, d: ContainerDetail) -> bool {
    &&& d.id@ == text_or_empty(rec.id)
    &&& d.name@ == strip_separator(text_or_empty(rec.name))
    &&& d.image@ == text_or_empty(rec.image)
    &&& d.state@ == state_text(rec.status)
    &&& d.status@ == state_text(rec.status)
    &&& d.created == created
    &&& port_views(d.ports@) == record_ports(rec.ports)
    &&& texts(d.env@) == record_env(rec.env)
    &&& d.mounts@.map_values(|m: MountInfo| m@) == record_mounts(rec.mounts)
}

fn take_mounts(ms: Option<Vec<MountRecord>>) -> (r: Vec<MountInfo>)
    ensures
        r@.map_values(|m: MountInfo| m@) == record_mounts(ms),
{
    let mut out: Vec<MountInfo> = Vec::new();
    match ms {
        Some(v) => {
            let total: usize = v.len();
            let ghost all = v@;
            let mut rest = v;
            let mut i: usize = 0;
            while rest.len() > 0
                invariant
                    i + rest@.len() == all.len(),
                    all.len() == total,
                    rest@ == all.subrange(i as int, all.len() as int),
                    out@.len() == i,
                    forall|k: int| 0 <= k < i ==> #[trigger] out@[k]@ == record_mount(all[k]),
                decreases rest@.len(),
            {
                let m = rest.remove(0);
                assert(m == all[i as int]);
                out.push(MountInfo {
                    source: take_text(m.source),
                    destination: take_text(m.destination),
                    mode: take_text(m.mode),
                });
                assert(rest@ =~= all.subrange(i + 1, all.len() as int));
                i = i + 1;
            }
            assert(out@.map_values(|m: MountInfo| m@) =~= all.map_values(|m: MountRecord| record_mount(m)));
        },
        None => {
            assert(out@.map_values(|m: MountInfo| m@) =~= Seq::<MountView>::empty());
        },
    }
    out
}

/// Maps an inspected container to its detail view, taking its creation time
/// as already read.
pub fn detail_from_record(rec: InspectRecord, created: i64) -> (r: ContainerDetail)
    ensures
        detail_of(rec, created, r),
{
    let name = strip_name_separator(take_text(rec.name).as_str());
    let state = match rec.status {
        Some(s) => s,
        None => String::from_str("unknown"),
    };
    let status = state.clone();
    let ports = match &rec.ports {
        Some(v) => normalize_port_map(v),
        None => {
            let e: Vec<PortMapping> = Vec::new();
            assert(port_views(e@) =~= Seq::<PortView>::empty());
            e
        },
    };
    let env = match rec.env {
        Some(v) => v,
        None => {
            let e: Vec<String> = Vec::new();
            assert(texts(e@) =~= Seq::<Seq<char>>::empty());
            e
        },
    };
    ContainerDetail {
        id: take_text(rec.id),
        name,
        image: take_text(rec.image),
        state,
        status,
        created,
        ports,
        env,
        mounts: take_mounts(rec.mounts),
    }
}

/// Maps an inspected container to its detail view; the creation time is
/// read from the engine's RFC 3339 text, 0 where it does not read as one.
pub fn container_detail(rec: InspectRecord) -> (r: ContainerDetail)
    ensures
        detail_of(rec, created_seconds(rec.created), r),
{
    let created = match &rec.created {
        Some(s) => match parse_utc_seconds(s.as_str()) {
            Some(t) => t,
            None => 0,
        },
        None => 0,
    };
    detail_from_record(rec, created)
}

/// The text with its letters in lower case, as std's `str::to_lowercase`
/// gives it.
pub uninterp spec fn lowercase_of(s: Seq<char>) -> Seq<char>;

/// Relies on std's `str::to_lowercase`: the result depends on the text alone.
#[verifier::external_body]
fn to_lowercase(s: &str) -> (r: String)
    ensures
        r@ == lowercase_of(s@),
{
    s.to_lowercase()
}

/// Some port of the container is published on host port `port`.
pub open spec fn publishes(info: ContainerInfo, port: u16) -> bool {
    exists|j: int| 0 <= j < info.ports@.len() && (#[trigger] info.ports@[j]).public_port == Some(port)
}

/// Whether some port of the container is published on host port `port`.
pub fn publishes_port(info: &ContainerInfo, port: u16) -> (r: bool)
    ensures
        r == publishes(*info, port),
{
    let mut j: usize = 0;
    while j < info.ports.len()
        invariant
            j <= info.ports.len(),
            forall|k: int| 0 <= k < j ==> (#[trigger] info.ports@[k]).public_port != Some(port),
        decreases info.ports.len() - j,
    {
        match info.ports[j].public_port {
            Some(p) => {
                if p == port {
                    return true;
                }
            },
            None => {},
        }
        j = j + 1;
    }
    false
}

/// Whether a container whose state, in lower case, is `lowered_state` is
/// running and publishes host port `port`.
pub fn running_and_publishes(lowered_state: &str, info: &ContainerInfo, port: u16) -> (r: bool)
    ensures
        r == (lowered_state@ == "running"@ && publishes(*info, port)),
{
    crate::text::same_text(lowered_state, "running") && publishes_port(info, port)
}

/// Whether a running container (its state read without regard to case)
/// publishes host port `port`.
pub fn port_in_use(containers: &Vec<ContainerInfo>, port: u16) -> (r: bool)
    ensures
        r == exists|i: int|
            0 <= i < containers@.len()
                && lowercase_of((#[trigger] containers@[i]).state@) == "running"@
                && publishes(containers@[i], port),
{
    let mut i: usize = 0;
    while i < containers.len()
        invariant
            i <= containers.len(),
            forall|k: int| 0 <= k < i ==> !(lowercase_of((#[trigger] containers@[k]).state@) == "running"@
                && publishes(containers@[k], port)),
        decreases containers.len() - i,
    {
        let c = &containers[i];
        let lowered = to_lowercase(c.state.as_str());
        if running_and_publishes(lowered.as_str(), c, port) {
            return true;
        }
        i = i + 1;
    }
    false
}

} // verus!
