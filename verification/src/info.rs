use vstd::prelude::*;

verus! {

/// Whether an instance currently has a live child process.
#[derive(PartialEq, Eq, Structural, Clone, Copy, Debug)]
pub enum InstanceStatus {
    Running,
    Stopped,
}

/// The persisted description of one managed instance.
#[derive(Debug)]
pub struct InstanceInfo {
    pub name: String,
    pub path: String,
    pub app: String,
    pub parameter: Vec<String>,
    pub auto_run: bool,
    pub auto_restart: bool,
    pub stop_command: String,
}

/// Mathematical value of an [`InstanceInfo`].
pub struct InstanceInfoView {
    pub name: Seq<char>,
    pub path: Seq<char>,
    pub app: Seq<char>,
    pub parameter: Seq<Seq<char>>,
    pub auto_run: bool,
    pub auto_restart: bool,
    pub stop_command: Seq<char>,
}

pub open spec fn strings_view(v: Seq<String>) -> Seq<Seq<char>> {
    v.map_values(|s: String| s@)
}

impl View for InstanceInfo {
    type V = InstanceInfoView;

    open spec fn view(&self) -> InstanceInfoView {
        InstanceInfoView {
            name: self.name@,
            path: self.path@,
            app: self.app@,
            parameter: strings_view(self.parameter@),
            auto_run: self.auto_run,
            auto_restart: self.auto_restart,
            stop_command: self.stop_command@,
        }
    }
}

/// Copies a list of strings, keeping every element.
pub fn clone_strings(v: &Vec<String>) -> (r: Vec<String>)
    ensures
        strings_view(r@) == strings_view(v@),
{
    let mut r: Vec<String> = Vec::new();
    let mut i: usize = 0;
    while i < v.len()
        invariant
            i <= v.len(),
            r@.len() == i,
            forall|j: int| 0 <= j < i ==> #[trigger] r@[j]@ == v@[j]@,
        decreases v.len() - i,
    {
        r.push(v[i].clone());
        i = i + 1;
    }
    assert(strings_view(r@) =~= strings_view(v@));
    r
}

impl Clone for InstanceInfo {
    fn clone(&self) -> (r: Self)
        ensures
            r@ == self@,
    {
        InstanceInfo {
            name: self.name.clone(),
            path: self.path.clone(),
            app: self.app.clone(),
            parameter: clone_strings(&self.parameter),
            auto_run: self.auto_run,
            auto_restart: self.auto_restart,
            stop_command: self.stop_command.clone(),
        }
    }
}

/// The value a stored description takes when `auto_restart` is absent.
pub fn default_false() -> (r: bool)
    ensures
        r == false,
{
    false
}

/// The value a stored description takes when `stop_command` is absent:
/// the text `stop`.
pub fn default_stop() -> (r: String)
    ensures
        r@ == seq!['s', 't', 'o', 'p'],
{
    let r = String::from_str("stop");
    proof {
        reveal_strlit("stop");
    }
    r
}

/// One row of the instance listing: the description without its restart
/// settings, together with the instance's status.
pub struct RespInstanceInfo {
    pub name: String,
    pub path: String,
    pub app: String,
    pub parameter: Vec<String>,
    pub auto_run: bool,
    pub status: InstanceStatus,
}

/// Mathematical value of a [`RespInstanceInfo`].
pub struct RespInstanceInfoView {
    pub name: Seq<char>,
    pub path: Seq<char>,
    pub app: Seq<char>,
    pub parameter: Seq<Seq<char>>,
    pub auto_run: bool,
    pub status: InstanceStatus,
}

impl View for RespInstanceInfo {
    type V = RespInstanceInfoView;

    open spec fn view(&self) -> RespInstanceInfoView {
        RespInstanceInfoView {
            name: self.name@,
            path: self.path@,
            app: self.app@,
            parameter: strings_view(self.parameter@),
            auto_run: self.auto_run,
            status: self.status,
        }
    }
}

/// The listing row that a description and a status give.
pub open spec fn resp_of(info: InstanceInfoView, status: InstanceStatus) -> RespInstanceInfoView {
    RespInstanceInfoView {
        name: info.name,
        path: info.path,
        app: info.app,
        parameter: info.parameter,
        auto_run: info.auto_run,
        status: status,
    }
}

impl RespInstanceInfo {
    pub fn new(inst_info: InstanceInfo, status: InstanceStatus) -> (r: Self)
        ensures
            r@ == resp_of(inst_info@, status),
    {
        RespInstanceInfo {
            name: inst_info.name,
            path: inst_info.path,
            app: inst_info.app,
            parameter: inst_info.parameter,
            auto_run: inst_info.auto_run,
            status,
        }
    }
}

/// A message body returned by the HTTP front end.
pub struct SrvMessage {
    pub message: String,
}

} // verus!
