//! The deployment of the dispatcher, as plain data that a cluster driver
//! turns into a request.
use vstd::prelude::*;
use vstd::string::*;

verus! {

/// The character of the digit `d`.
pub open spec fn digit(d: nat) -> char {
    if d == 0 {
        '0'
    } else if d == 1 {
        '1'
    } else if d == 2 {
        '2'
    } else if d == 3 {
        '3'
    } else if d == 4 {
        '4'
    } else if d == 5 {
        '5'
    } else if d == 6 {
        '6'
    } else if d == 7 {
        '7'
    } else if d == 8 {
        '8'
    } else {
        '9'
    }
}

/// `n` in decimal digits, without leading zeros.
pub open spec fn decimal(n: nat) -> Seq<char>
    decreases n,
{
    if n < 10 {
        seq![digit(n)]
    } else {
        decimal(n / 10).push(digit(n % 10))
    }
}

fn digit_text(d: usize) -> (res: &'static str)
    requires
        d < 10,
    ensures
        res@ == seq![digit(d as nat)],
{
    proof {
        reveal_strlit("0");
        reveal_strlit("1");
        reveal_strlit("2");
        reveal_strlit("3");
        reveal_strlit("4");
        reveal_strlit("5");
        reveal_strlit("6");
        reveal_strlit("7");
        reveal_strlit("8");
        reveal_strlit("9");
    }
    let text = if d == 0 {
        "0"
    } else if d == 1 {
        "1"
    } else if d == 2 {
        "2"
    } else if d == 3 {
        "3"
    } else if d == 4 {
        "4"
    } else if d == 5 {
        "5"
    } else if d == 6 {
        "6"
    } else if d == 7 {
        "7"
    } else if d == 8 {
        "8"
    } else {
        "9"
    };
    assert(text@ =~= seq![digit(d as nat)]);
    text
}

/// `n` in decimal digits.
pub fn decimal_string(n: usize) -> (res: String)
    ensures
        res@ == decimal(n as nat),
    decreases n,
{
    if n < 10 {
        String::from_str(digit_text(n))
    } else {
        let front = decimal_string(n / 10);
        let last = digit_text(n % 10);
        let res = front.concat(last);
        assert(res@ =~= decimal((n / 10) as nat).push(digit((n % 10) as nat)));
        res
    }
}

/// A container of a pod.
#[derive(Debug)]
pub struct Container {
    pub name: String,
    pub image: String,
    pub port_name: String,
    pub port: u16,
    /// Whether the image is pulled each time the container starts.
    pub always_pull: bool,
    /// The environment, as names and values.
    pub env: Vec<(String, String)>,
    /// How many seconds lie between two readiness probes.
    pub probe_period_seconds: u32,
    pub probe_path: String,
    pub probe_port: u16,
}

/// A deployment with one container.
#[derive(Debug)]
pub struct Deployment {
    pub name: String,
    pub namespace: String,
    pub labels: Vec<(String, String)>,
    pub replicas: i32,
    /// The label by which the deployment finds its pods.
    pub selector: (String, String),
    pub pod_labels: Vec<(String, String)>,
    pub container: Container,
}

/// A container, by its characters.
pub struct ContainerView {
    pub name: Seq<char>,
    pub image: Seq<char>,
    pub port_name: Seq<char>,
    pub port: u16,
    pub always_pull: bool,
    pub env: Seq<(Seq<char>, Seq<char>)>,
    pub probe_period_seconds: u32,
    pub probe_path: Seq<char>,
    pub probe_port: u16,
}

/// A deployment, by its characters.
pub struct DeploymentView {
    pub name: Seq<char>,
    pub namespace: Seq<char>,
    pub labels: Seq<(Seq<char>, Seq<char>)>,
    pub replicas: i32,
    pub selector: (Seq<char>, Seq<char>),
    pub pod_labels: Seq<(Seq<char>, Seq<char>)>,
    pub container: ContainerView,
}

/// The characters of each pair of `pairs`.
pub open spec fn pair_texts(pairs: Seq<(String, String)>) -> Seq<(Seq<char>, Seq<char>)> {
    Seq::new(pairs.len(), |i: int| (pairs[i].0@, pairs[i].1@))
}

impl View for Container {
    type V = ContainerView;

    open spec fn view(&self) -> ContainerView {
        ContainerView {
            name: self.name@,
            image: self.image@,
            port_name: self.port_name@,
            port: self.port,
            always_pull: self.always_pull,
            env: pair_texts(self.env@),
            probe_period_seconds: self.probe_period_seconds,
            probe_path: self.probe_path@,
            probe_port: self.probe_port,
        }
    }
}

impl View for Deployment {
    type V = DeploymentView;

    open spec fn view(&self) -> DeploymentView {
        DeploymentView {
            name: self.name@,
            namespace: self.namespace@,
            labels: pair_texts(self.labels@),
            replicas: self.replicas,
            selector: (self.selector.0@, self.selector.1@),
            pod_labels: pair_texts(self.pod_labels@),
            container: self.container@,
        }
    }
}

/// The labels of the dispatcher of `version`.
pub open spec fn dispatcher_labels(version: usize) -> Seq<(Seq<char>, Seq<char>)> {
    seq![("app"@, "dispatcher"@), ("version"@, decimal(version as nat))]
}

/// The deployment of the dispatcher of `version`, with `rust_log` the log
/// level that its pods are to run at: one replica of the dispatcher image,
/// pulled anew, that serves on port 8080 and is probed there each second.
pub open spec fn dispatcher_deployment(version: usize, rust_log: Seq<char>) -> DeploymentView {
    DeploymentView {
        name: "dispatcher"@,
        namespace: "containerless"@,
        labels: dispatcher_labels(version),
        replicas: 1,
        selector: ("app"@, "dispatcher"@),
        pod_labels: dispatcher_labels(version),
        container: ContainerView {
            name: "dispatcher"@,
            image: "localhost:32000/dispatcher"@,
            port_name: "http"@,
            port: 8080,
            always_pull: true,
            env: seq![("RUST_LOG"@, rust_log), ("Version"@, "V"@ + decimal(version as nat))],
            probe_period_seconds: 1,
            probe_path: "/readinessProbe/"@,
            probe_port: 8080,
        },
    }
}

fn labels_of(version: usize) -> (res: Vec<(String, String)>)
    ensures
        pair_texts(res@) == dispatcher_labels(version),
{
    let mut labels: Vec<(String, String)> = Vec::new();
    labels.push((String::from_str("app"), String::from_str("dispatcher")));
    labels.push((String::from_str("version"), decimal_string(version)));
    assert(pair_texts(labels@) =~= dispatcher_labels(version));
    labels
}

/// The deployment of the dispatcher of `version`.
pub fn dispatcher_deployment_spec(version: usize, rust_log: &str) -> (res: Deployment)
    ensures
        res@ == dispatcher_deployment(version, rust_log@),
{
    let mut env: Vec<(String, String)> = Vec::new();
    env.push((String::from_str("RUST_LOG"), String::from_str(rust_log)));
    env.push((String::from_str("Version"), String::from_str("V").concat(decimal_string(version).as_str())));
    assert(pair_texts(env@) =~= seq![
        ("RUST_LOG"@, rust_log@),
        ("Version"@, "V"@ + decimal(version as nat)),
    ]);
    Deployment {
        name: String::from_str("dispatcher"),
        namespace: String::from_str("containerless"),
        labels: labels_of(version),
        replicas: 1,
        selector: (String::from_str("app"), String::from_str("dispatcher")),
        pod_labels: labels_of(version),
        container: Container {
            name: String::from_str("dispatcher"),
            image: String::from_str("localhost:32000/dispatcher"),
            port_name: String::from_str("http"),
            port: 8080,
            always_pull: true,
            env,
            probe_period_seconds: 1,
            probe_path: String::from_str("/readinessProbe/"),
            probe_port: 8080,
        },
    }
}

/// The selector of the pods of the dispatcher of `version`.
pub fn dispatcher_pod_selector(version: usize) -> (res: String)
    ensures
        res@ == "app=dispatcher,version="@ + decimal(version as nat),
{
    String::from_str("app=dispatcher,version=").concat(decimal_string(version).as_str())
}

} // verus!
