//! Definitions of the services that discovery recognizes, and the patterns
//! by which it recognizes them.

use vstd::prelude::*;

verus! {

/// The group a service belongs to.
#[derive(Debug, Clone, Copy, PartialEq, Eq, Structural, Hash)]
pub enum ServiceCategory {
    Virtualization,
    Printer,
    Storage,
    NetworkSecurity,
}

#[derive(Debug, Clone, Copy, PartialEq, Eq, Structural, Hash)]
pub enum TransportProtocol {
    Tcp,
    Udp,
}

/// A port that services listen on: a well-known one, or any other by
/// number and protocol.
#[derive(Debug, Clone, Copy, PartialEq, Eq, Structural, Hash)]
pub enum PortBase {
    Http,
    HttpAlt,
    Ipp,
    LdpTcp,
    LdpUdp,
    Nfs,
    Custom { number: u16, protocol: TransportProtocol },
}

impl PortBase {
    /// The TCP port `number`.
    pub fn new_tcp(number: u16) -> (r: PortBase)
        ensures
            r == (PortBase::Custom { number, protocol: TransportProtocol::Tcp }),
    {
        PortBase::Custom { number, protocol: TransportProtocol::Tcp }
    }
}

/// What discovery looks for to recognize a service.
#[derive(Debug)]
pub enum Pattern<'a> {
    /// The port is open.
    Port(PortBase),
    /// An HTTP request for the path on the port answers with a body that
    /// contains the text.
    Endpoint(PortBase, &'a str, &'a str),
    /// Every one of the patterns holds.
    AllOf(Vec<Pattern<'a>>),
    /// At least one of the patterns holds.
    AnyOf(Vec<Pattern<'a>>),
}

pub ghost enum PatternView {
    Port(PortBase),
    Endpoint(PortBase, Seq<char>, Seq<char>),
    AllOf(Seq<PatternView>),
    AnyOf(Seq<PatternView>),
}

pub open spec fn pattern_view<'a>(p: Pattern<'a>) -> PatternView
    decreases p,
{
    match p {
        Pattern::Port(port) => PatternView::Port(port),
        Pattern::Endpoint(port, path, needle) => PatternView::Endpoint(port, path@, needle@),
        Pattern::AllOf(v) => PatternView::AllOf(pattern_views(v@)),
        Pattern::AnyOf(v) => PatternView::AnyOf(pattern_views(v@)),
    }
}

pub open spec fn pattern_views<'a>(ps: Seq<Pattern<'a>>) -> Seq<PatternView>
    decreases ps,
{
    if ps.len() == 0 {
        seq![]
    } else {
        seq![pattern_view(ps[0])] + pattern_views(ps.drop_first())
    }
}

impl<'a> View for Pattern<'a> {
    type V = PatternView;

    open spec fn view(&self) -> PatternView {
        pattern_view(*self)
    }
}


/// A service that discovery can recognize.
pub trait ServiceDefinition {
    fn name(&self) -> &'static str;

    fn description(&self) -> &'static str;

    fn category(&self) -> ServiceCategory;

    fn discovery_pattern(&self) -> Pattern<'_>;
}

pub open spec fn tcp(number: u16) -> PortBase {
    PortBase::Custom { number, protocol: TransportProtocol::Tcp }
}

/// Docker Swarm: both cluster-management and node-communication ports open.
pub open spec fn docker_swarm_pattern() -> PatternView {
    PatternView::AllOf(seq![PatternView::Port(tcp(2377)), PatternView::Port(tcp(7946))])
}

/// An HP printer: a web page that names a printer line, and a print port.
pub open spec fn hp_printer_pattern() -> PatternView {
    PatternView::AllOf(
        seq![
            PatternView::AnyOf(
                seq![
                    PatternView::Endpoint(PortBase::Http, ""@, "LaserJet"@),
                    PatternView::Endpoint(PortBase::Http, ""@, "DeskJet"@),
                    PatternView::Endpoint(PortBase::Http, ""@, "OfficeJet"@),
                    PatternView::Endpoint(PortBase::HttpAlt, ""@, "LaserJet"@),
                    PatternView::Endpoint(PortBase::HttpAlt, ""@, "DeskJet"@),
                    PatternView::Endpoint(PortBase::HttpAlt, ""@, "OfficeJet"@),
                ],
            ),
            PatternView::AnyOf(
                seq![
                    PatternView::Port(PortBase::Ipp),
                    PatternView::Port(PortBase::LdpTcp),
                    PatternView::Port(PortBase::LdpUdp),
                ],
            ),
        ],
    )
}

/// Portainer: its sign-in page on 9443, and one of its other ports.
pub open spec fn portainer_pattern() -> PatternView {
    PatternView::AllOf(
        seq![
            PatternView::Endpoint(tcp(9443), "/#!/auth"@, "portainer"@),
            PatternView::AnyOf(seq![PatternView::Port(tcp(9000)), PatternView::Port(tcp(8000))]),
        ],
    )
}

proof fn views_of_two<'a>(a: Pattern<'a>, b: Pattern<'a>)
    ensures
        pattern_views(seq![a, b]) == seq![a@, b@],
{
    reveal_with_fuel(pattern_views, 3);
    assert(seq![a, b].drop_first() =~= seq![b]);
    assert(seq![b].drop_first() =~= Seq::<Pattern<'a>>::empty());
    assert(pattern_views(seq![a, b]) =~= seq![a@, b@]);
}

proof fn views_of_three<'a>(a: Pattern<'a>, b: Pattern<'a>, c: Pattern<'a>)
    ensures
        pattern_views(seq![a, b, c]) == seq![a@, b@, c@],
{
    assert(seq![a, b, c].drop_first() =~= seq![b, c]);
    views_of_two(b, c);
    assert(pattern_views(seq![a, b, c]) =~= seq![a@, b@, c@]);
}

proof fn views_of_six<'a>(
    a: Pattern<'a>,
    b: Pattern<'a>,
    c: Pattern<'a>,
    d: Pattern<'a>,
    e: Pattern<'a>,
    f: Pattern<'a>,
)
    ensures
        pattern_views(seq![a, b, c, d, e, f]) == seq![a@, b@, c@, d@, e@, f@],
{
    assert(seq![a, b, c, d, e, f].drop_first() =~= seq![b, c, d, e, f]);
    assert(seq![b, c, d, e, f].drop_first() =~= seq![c, d, e, f]);
    assert(seq![c, d, e, f].drop_first() =~= seq![d, e, f]);
    views_of_three(d, e, f);
    assert(pattern_views(seq![c, d, e, f]) =~= seq![c@, d@, e@, f@]);
    assert(pattern_views(seq![b, c, d, e, f]) =~= seq![b@, c@, d@, e@, f@]);
    assert(pattern_views(seq![a, b, c, d, e, f]) =~= seq![a@, b@, c@, d@, e@, f@]);
}

/// Docker's native clustering.
#[derive(Debug, Default, Clone, Copy, PartialEq, Eq, Hash)]
pub struct DockerSwarm;

impl ServiceDefinition for DockerSwarm {
    fn name(&self) -> (r: &'static str)
        ensures
            r@ == "Docker Swarm"@,
    {
        "Docker Swarm"
    }

    fn description(&self) -> (r: &'static str)
        ensures
            r@ == "Docker native clustering and orchestration"@,
    {
        "Docker native clustering and orchestration"
    }

    fn category(&self) -> (r: ServiceCategory)
        ensures
            r == ServiceCategory::Virtualization,
    {
        ServiceCategory::Virtualization
    }

    fn discovery_pattern(&self) -> (r: Pattern<'_>)
        ensures
            r@ == docker_swarm_pattern(),
    {
        let a = Pattern::Port(PortBase::new_tcp(2377));
        let b = Pattern::Port(PortBase::new_tcp(7946));
        proof {
            views_of_two(a, b);
        }
        let v = vec![a, b];
        assert(v@ =~= seq![a, b]);
        Pattern::AllOf(v)
    }
}

impl DockerSwarm {
    pub fn logo_url(&self) -> (r: &'static str)
        ensures
            r@ == "https://cdn.jsdelivr.net/gh/homarr-labs/dashboard-icons/svg/docker.svg"@,
    {
        "https://cdn.jsdelivr.net/gh/homarr-labs/dashboard-icons/svg/docker.svg"
    }
}

/// An HP printer.
#[derive(Debug, Default, Clone, Copy, PartialEq, Eq, Hash)]
pub struct HpPrinter;

impl ServiceDefinition for HpPrinter {
    fn name(&self) -> (r: &'static str)
        ensures
            r@ == "Hp Printer"@,
    {
        "Hp Printer"
    }

    fn description(&self) -> (r: &'static str)
        ensures
            r@ == "An HP Printer"@,
    {
        "An HP Printer"
    }

    fn category(&self) -> (r: ServiceCategory)
        ensures
            r == ServiceCategory::Printer,
    {
        ServiceCategory::Printer
    }

    fn discovery_pattern(&self) -> (r: Pattern<'_>)
        ensures
            r@ == hp_printer_pattern(),
    {
        let e1 = Pattern::Endpoint(PortBase::Http, "", "LaserJet");
        let e2 = Pattern::Endpoint(PortBase::Http, "", "DeskJet");
        let e3 = Pattern::Endpoint(PortBase::Http, "", "OfficeJet");
        let e4 = Pattern::Endpoint(PortBase::HttpAlt, "", "LaserJet");
        let e5 = Pattern::Endpoint(PortBase::HttpAlt, "", "DeskJet");
        let e6 = Pattern::Endpoint(PortBase::HttpAlt, "", "OfficeJet");
        proof {
            views_of_six(e1, e2, e3, e4, e5, e6);
        }
        let pages = vec![e1, e2, e3, e4, e5, e6];
        assert(pages@ =~= seq![e1, e2, e3, e4, e5, e6]);
        let p1 = Pattern::Port(PortBase::Ipp);
        let p2 = Pattern::Port(PortBase::LdpTcp);
        let p3 = Pattern::Port(PortBase::LdpUdp);
        proof {
            views_of_three(p1, p2, p3);
        }
        let ports = vec![p1, p2, p3];
        assert(ports@ =~= seq![p1, p2, p3]);
        let any_page = Pattern::AnyOf(pages);
        let any_port = Pattern::AnyOf(ports);
        proof {
            views_of_two(any_page, any_port);
        }
        let all = vec![any_page, any_port];
        assert(all@ =~= seq![any_page, any_port]);
        Pattern::AllOf(all)
    }
}

impl HpPrinter {
    pub fn logo_url(&self) -> (r: &'static str)
        ensures
            r@ == "https://cdn.jsdelivr.net/gh/homarr-labs/dashboard-icons/svg/hp.svg"@,
    {
        "https://cdn.jsdelivr.net/gh/homarr-labs/dashboard-icons/svg/hp.svg"
    }

    pub fn logo_needs_white_background(&self) -> (r: bool)
        ensures
            r,
    {
        true
    }
}

/// A generic network storage device.
#[derive(Debug, Default, Clone, Copy, PartialEq, Eq, Hash)]
pub struct NasDevice;

impl ServiceDefinition for NasDevice {
    fn name(&self) -> (r: &'static str)
        ensures
            r@ == "Nas Device"@,
    {
        "Nas Device"
    }

    fn description(&self) -> (r: &'static str)
        ensures
            r@ == "A generic network storage devices"@,
    {
        "A generic network storage devices"
    }

    fn category(&self) -> (r: ServiceCategory)
        ensures
            r == ServiceCategory::Storage,
    {
        ServiceCategory::Storage
    }

    fn discovery_pattern(&self) -> (r: Pattern<'_>)
        ensures
            r@ == PatternView::Port(PortBase::Nfs),
    {
        Pattern::Port(PortBase::Nfs)
    }
}

impl NasDevice {
    /// A generic definition, matched only when nothing more specific is.
    pub fn is_generic(&self) -> (r: bool)
        ensures
            r,
    {
        true
    }
}

/// The OPNsense firewall.
#[derive(Debug, Default, Clone, Copy, PartialEq, Eq, Hash)]
pub struct OpnSense;

impl ServiceDefinition for OpnSense {
    fn name(&self) -> (r: &'static str)
        ensures
            r@ == "OPNsense"@,
    {
        "OPNsense"
    }

    fn description(&self) -> (r: &'static str)
        ensures
            r@ == "Open-source firewall and routing platform"@,
    {
        "Open-source firewall and routing platform"
    }

    fn category(&self) -> (r: ServiceCategory)
        ensures
            r == ServiceCategory::NetworkSecurity,
    {
        ServiceCategory::NetworkSecurity
    }

    fn discovery_pattern(&self) -> (r: Pattern<'_>)
        ensures
            r@ == PatternView::Endpoint(PortBase::Http, "/"@, "opnsense"@),
    {
        Pattern::Endpoint(PortBase::Http, "/", "opnsense")
    }
}

impl OpnSense {
    pub fn logo_url(&self) -> (r: &'static str)
        ensures
            r@ == "https://cdn.jsdelivr.net/gh/homarr-labs/dashboard-icons/svg/opnsense.svg"@,
    {
        "https://cdn.jsdelivr.net/gh/homarr-labs/dashboard-icons/svg/opnsense.svg"
    }
}

/// The Portainer container management interface.
#[derive(Debug, Default, Clone, Copy, PartialEq, Eq, Hash)]
pub struct Portainer;

impl ServiceDefinition for Portainer {
    fn name(&self) -> (r: &'static str)
        ensures
            r@ == "Portainer"@,
    {
        "Portainer"
    }

    fn description(&self) -> (r: &'static str)
        ensures
            r@ == "Container management web interface"@,
    {
        "Container management web interface"
    }

    fn category(&self) -> (r: ServiceCategory)
        ensures
            r == ServiceCategory::Virtualization,
    {
        ServiceCategory::Virtualization
    }

    fn discovery_pattern(&self) -> (r: Pattern<'_>)
        ensures
            r@ == portainer_pattern(),
    {
        let page = Pattern::Endpoint(PortBase::new_tcp(9443), "/#!/auth", "portainer");
        let p1 = Pattern::Port(PortBase::new_tcp(9000));
        let p2 = Pattern::Port(PortBase::new_tcp(8000));
        proof {
            views_of_two(p1, p2);
        }
        let ports = vec![p1, p2];
        assert(ports@ =~= seq![p1, p2]);
        let any_port = Pattern::AnyOf(ports);
        proof {
            views_of_two(page, any_port);
        }
        let all = vec![page, any_port];
        assert(all@ =~= seq![page, any_port]);
        Pattern::AllOf(all)
    }
}

impl Portainer {
    pub fn logo_url(&self) -> (r: &'static str)
        ensures
            r@ == "https://cdn.jsdelivr.net/gh/homarr-labs/dashboard-icons/svg/portainer.svg"@,
    {
        "https://cdn.jsdelivr.net/gh/homarr-labs/dashboard-icons/svg/portainer.svg"
    }
}
} // verus!
