//! Task classification: a task-identifier string is mapped to one of seven
//! categories - by a browser-name substring rule, then exact table lookup,
//! then a substring fallback over the same table, then a default - and each
//! category names the single body that governs it.

use vstd::prelude::*;
use crate::planets::Planet;
use crate::text::has_substring;
use crate::text::str_eq;
use crate::text::str_has_substring;

verus! {

/// The seven task categories.
#[derive(Debug, Clone, Copy, PartialEq, Eq, Hash, Structural)]
pub enum TaskType {
    Network,
    CpuIntensive,
    Desktop,
    MemoryHeavy,
    System,
    Interactive,
    Critical,
}

impl TaskType {
    /// The single governing body of this category.
    pub open spec fn spec_ruling_planet(self) -> Planet {
        match self {
            TaskType::Network => Planet::Mercury,
            TaskType::CpuIntensive => Planet::Mars,
            TaskType::Desktop => Planet::Venus,
            TaskType::MemoryHeavy => Planet::Jupiter,
            TaskType::System => Planet::Saturn,
            TaskType::Interactive => Planet::Moon,
            TaskType::Critical => Planet::Sun,
        }
    }

    pub fn ruling_planet(self) -> (p: Planet)
        ensures
            p == self.spec_ruling_planet(),
    {
        match self {
            TaskType::Network => Planet::Mercury,
            TaskType::CpuIntensive => Planet::Mars,
            TaskType::Desktop => Planet::Venus,
            TaskType::MemoryHeavy => Planet::Jupiter,
            TaskType::System => Planet::Saturn,
            TaskType::Interactive => Planet::Moon,
            TaskType::Critical => Planet::Sun,
        }
    }

    pub open spec fn spec_name(self) -> Seq<char> {
        match self {
            TaskType::Network => "Network"@,
            TaskType::CpuIntensive => "CPU-Intensive"@,
            TaskType::Desktop => "Desktop/UI"@,
            TaskType::MemoryHeavy => "Memory-Heavy"@,
            TaskType::System => "System"@,
            TaskType::Interactive => "Interactive"@,
            TaskType::Critical => "Critical"@,
        }
    }

    pub fn name(self) -> (r: &'static str)
        ensures
            r@ == self.spec_name(),
    {
        match self {
            TaskType::Network => "Network",
            TaskType::CpuIntensive => "CPU-Intensive",
            TaskType::Desktop => "Desktop/UI",
            TaskType::MemoryHeavy => "Memory-Heavy",
            TaskType::System => "System",
            TaskType::Interactive => "Interactive",
            TaskType::Critical => "Critical",
        }
    }
}

/// The patterns classified as network work.
pub open spec fn network_patterns() -> Seq<(&'static str, TaskType)> {
    seq![
        ("ssh", TaskType::Network),
        ("sshd", TaskType::Network),
        ("curl", TaskType::Network),
        ("wget", TaskType::Network),
        ("transmission", TaskType::Network),
        ("discord", TaskType::Network),
        ("slack", TaskType::Network),
        ("teams", TaskType::Network),
        ("zoom", TaskType::Network),
        ("thunderbird", TaskType::Network),
        ("evolution", TaskType::Network),
        ("networkmanager", TaskType::Network),
        ("dhcpcd", TaskType::Network),
        ("wpa_supplicant", TaskType::Network),
        ("nginx", TaskType::Network),
        ("apache", TaskType::Network),
        ("httpd", TaskType::Network),
        ("node", TaskType::Network),
        ("npm", TaskType::Network),
        ("deno", TaskType::Network),
    ]
}

/// The patterns classified as CPU-bound work.
pub open spec fn cpu_patterns() -> Seq<(&'static str, TaskType)> {
    seq![
        ("cc1", TaskType::CpuIntensive),
        ("rustc", TaskType::CpuIntensive),
        ("make", TaskType::CpuIntensive),
        ("cargo", TaskType::CpuIntensive),
        ("gcc", TaskType::CpuIntensive),
        ("clang", TaskType::CpuIntensive),
        ("g++", TaskType::CpuIntensive),
        ("ld", TaskType::CpuIntensive),
        ("as", TaskType::CpuIntensive),
        ("ffmpeg", TaskType::CpuIntensive),
        ("blender", TaskType::CpuIntensive),
        ("gimp", TaskType::CpuIntensive),
        ("inkscape", TaskType::CpuIntensive),
        ("handbrake", TaskType::CpuIntensive),
        ("x264", TaskType::CpuIntensive),
        ("x265", TaskType::CpuIntensive),
        ("vpxenc", TaskType::CpuIntensive),
        ("tar", TaskType::CpuIntensive),
        ("gzip", TaskType::CpuIntensive),
        ("bzip2", TaskType::CpuIntensive),
        ("xz", TaskType::CpuIntensive),
        ("zip", TaskType::CpuIntensive),
        ("7z", TaskType::CpuIntensive),
        ("convert", TaskType::CpuIntensive),
        ("montage", TaskType::CpuIntensive),
    ]
}

/// The patterns classified as desktop and user-interface work.
pub open spec fn desktop_patterns() -> Seq<(&'static str, TaskType)> {
    seq![
        ("gnome-shell", TaskType::Desktop),
        ("kde", TaskType::Desktop),
        ("plasma", TaskType::Desktop),
        ("kwin", TaskType::Desktop),
        ("xorg", TaskType::Desktop),
        ("wayland", TaskType::Desktop),
        ("pulseaudio", TaskType::Desktop),
        ("pipewire", TaskType::Desktop),
        ("mutter", TaskType::Desktop),
        ("compiz", TaskType::Desktop),
        ("enlightenment", TaskType::Desktop),
        ("xfce4", TaskType::Desktop),
        ("lxde", TaskType::Desktop),
        ("mate-panel", TaskType::Desktop),
        ("cinnamon", TaskType::Desktop),
        ("budgie", TaskType::Desktop),
        ("polybar", TaskType::Desktop),
        ("waybar", TaskType::Desktop),
        ("dunst", TaskType::Desktop),
        ("mako", TaskType::Desktop),
        ("rofi", TaskType::Desktop),
        ("dmenu", TaskType::Desktop),
    ]
}

/// The patterns classified as memory-heavy work.
pub open spec fn memory_patterns() -> Seq<(&'static str, TaskType)> {
    seq![
        ("postgres", TaskType::MemoryHeavy),
        ("postgresql", TaskType::MemoryHeavy),
        ("mysql", TaskType::MemoryHeavy),
        ("mariadb", TaskType::MemoryHeavy),
        ("redis", TaskType::MemoryHeavy),
        ("memcached", TaskType::MemoryHeavy),
        ("mongodb", TaskType::MemoryHeavy),
        ("cassandra", TaskType::MemoryHeavy),
        ("elasticsearch", TaskType::MemoryHeavy),
        ("java", TaskType::MemoryHeavy),
        ("electron", TaskType::MemoryHeavy),
        ("idea", TaskType::MemoryHeavy),
        ("pycharm", TaskType::MemoryHeavy),
        ("studio", TaskType::MemoryHeavy),
        ("vscode", TaskType::MemoryHeavy),
        ("code", TaskType::MemoryHeavy),
        ("docker", TaskType::MemoryHeavy),
        ("containerd", TaskType::MemoryHeavy),
        ("qemu", TaskType::MemoryHeavy),
        ("virtualbox", TaskType::MemoryHeavy),
    ]
}

/// The patterns classified as system work.
pub open spec fn system_patterns() -> Seq<(&'static str, TaskType)> {
    seq![
        ("systemd", TaskType::System),
        ("init", TaskType::System),
        ("kworker", TaskType::System),
        ("kswapd", TaskType::System),
        ("kthreadd", TaskType::System),
        ("ksoftirqd", TaskType::System),
        ("migration", TaskType::System),
        ("rcu", TaskType::System),
        ("watchdog", TaskType::System),
        ("irqbalance", TaskType::System),
        ("systemd-journald", TaskType::System),
        ("systemd-udevd", TaskType::System),
        ("systemd-logind", TaskType::System),
        ("dbus-daemon", TaskType::System),
        ("accounts-daemon", TaskType::System),
        ("polkitd", TaskType::System),
        ("rtkit-daemon", TaskType::System),
        ("udisksd", TaskType::System),
        ("upowerd", TaskType::System),
    ]
}

/// The patterns classified as interactive work.
pub open spec fn interactive_patterns() -> Seq<(&'static str, TaskType)> {
    seq![
        ("bash", TaskType::Interactive),
        ("zsh", TaskType::Interactive),
        ("fish", TaskType::Interactive),
        ("sh", TaskType::Interactive),
        ("vim", TaskType::Interactive),
        ("nvim", TaskType::Interactive),
        ("emacs", TaskType::Interactive),
        ("nano", TaskType::Interactive),
        ("less", TaskType::Interactive),
        ("more", TaskType::Interactive),
        ("cat", TaskType::Interactive),
        ("grep", TaskType::Interactive),
        ("awk", TaskType::Interactive),
        ("sed", TaskType::Interactive),
        ("tmux", TaskType::Interactive),
        ("screen", TaskType::Interactive),
        ("htop", TaskType::Interactive),
        ("top", TaskType::Interactive),
        ("btop", TaskType::Interactive),
        ("glances", TaskType::Interactive),
        ("alacritty", TaskType::Interactive),
        ("kitty", TaskType::Interactive),
        ("konsole", TaskType::Interactive),
        ("gnome-terminal", TaskType::Interactive),
        ("terminator", TaskType::Interactive),
        ("yakuake", TaskType::Interactive),
        ("st", TaskType::Interactive),
    ]
}

/// The full classification table, in insertion order.
pub open spec fn pattern_table() -> Seq<(&'static str, TaskType)> {
    network_patterns() + cpu_patterns() + desktop_patterns() + memory_patterns()
        + system_patterns() + interactive_patterns()
}

/// The category of the first table entry whose pattern equals `comm`, if any.
pub open spec fn first_exact(pats: Seq<(&'static str, TaskType)>, comm: Seq<char>) -> Option<
    TaskType,
>
    decreases pats.len(),
{
    if pats.len() == 0 {
        None
    } else if pats[0].0@ == comm {
        Some(pats[0].1)
    } else {
        first_exact(pats.subrange(1, pats.len() as int), comm)
    }
}

/// The category of the first table entry whose pattern occurs inside `comm`,
/// if any.
pub open spec fn first_partial(pats: Seq<(&'static str, TaskType)>, comm: Seq<char>) -> Option<
    TaskType,
>
    decreases pats.len(),
{
    if pats.len() == 0 {
        None
    } else if has_substring(comm, pats[0].0@) {
        Some(pats[0].1)
    } else {
        first_partial(pats.subrange(1, pats.len() as int), comm)
    }
}

/// The well-known browser names that short-circuit classification.
pub open spec fn is_browser_name(comm: Seq<char>) -> bool {
    ||| has_substring(comm, "firefox"@)
    ||| has_substring(comm, "chrome"@)
    ||| has_substring(comm, "chromium"@)
}

/// Full classification semantics: browser rule, exact lookup, substring
/// fallback, then the default category.
pub open spec fn spec_classify(pats: Seq<(&'static str, TaskType)>, comm: Seq<char>) -> TaskType {
    if is_browser_name(comm) {
        TaskType::Network
    } else if first_exact(pats, comm) is Some {
        first_exact(pats, comm)->Some_0
    } else if first_partial(pats, comm) is Some {
        first_partial(pats, comm)->Some_0
    } else {
        TaskType::Interactive
    }
}

proof fn lemma_first_exact_found(pats: Seq<(&'static str, TaskType)>, comm: Seq<char>, i: int)
    requires
        0 <= i < pats.len(),
        forall|k: int| 0 <= k < i ==> #[trigger] pats[k].0@ != comm,
        pats[i].0@ == comm,
    ensures
        first_exact(pats, comm) == Some(pats[i].1),
    decreases pats.len(),
{
    if i > 0 {
        let tail = pats.subrange(1, pats.len() as int);
        lemma_first_exact_found(tail, comm, i - 1);
    }
}

proof fn lemma_first_exact_none(pats: Seq<(&'static str, TaskType)>, comm: Seq<char>)
    requires
        forall|k: int| 0 <= k < pats.len() ==> #[trigger] pats[k].0@ != comm,
    ensures
        first_exact(pats, comm) is None,
    decreases pats.len(),
{
    if pats.len() > 0 {
        let tail = pats.subrange(1, pats.len() as int);
        lemma_first_exact_none(tail, comm);
    }
}

proof fn lemma_first_partial_found(pats: Seq<(&'static str, TaskType)>, comm: Seq<char>, i: int)
    requires
        0 <= i < pats.len(),
        forall|k: int| 0 <= k < i ==> !has_substring(comm, #[trigger] pats[k].0@),
        has_substring(comm, pats[i].0@),
    ensures
        first_partial(pats, comm) == Some(pats[i].1),
    decreases pats.len(),
{
    if i > 0 {
        let tail = pats.subrange(1, pats.len() as int);
        lemma_first_partial_found(tail, comm, i - 1);
    }
}

proof fn lemma_first_partial_none(pats: Seq<(&'static str, TaskType)>, comm: Seq<char>)
    requires
        forall|k: int| 0 <= k < pats.len() ==> !has_substring(comm, #[trigger] pats[k].0@),
    ensures
        first_partial(pats, comm) is None,
    decreases pats.len(),
{
    if pats.len() > 0 {
        let tail = pats.subrange(1, pats.len() as int);
        lemma_first_partial_none(tail, comm);
    }
}

/// Maps task-identifier strings to categories through a fixed pattern table.
pub struct TaskClassifier {
    patterns: Vec<(&'static str, TaskType)>,
}

impl View for TaskClassifier {
    type V = Seq<(&'static str, TaskType)>;

    closed spec fn view(&self) -> Seq<(&'static str, TaskType)> {
        self.patterns@
    }
}

fn push_network_patterns(patterns: &mut Vec<(&'static str, TaskType)>)
    ensures
        final(patterns)@ == old(patterns)@ + network_patterns(),
{
    patterns.push(("ssh", TaskType::Network));
    patterns.push(("sshd", TaskType::Network));
    patterns.push(("curl", TaskType::Network));
    patterns.push(("wget", TaskType::Network));
    patterns.push(("transmission", TaskType::Network));
    patterns.push(("discord", TaskType::Network));
    patterns.push(("slack", TaskType::Network));
    patterns.push(("teams", TaskType::Network));
    patterns.push(("zoom", TaskType::Network));
    patterns.push(("thunderbird", TaskType::Network));
    patterns.push(("evolution", TaskType::Network));
    patterns.push(("networkmanager", TaskType::Network));
    patterns.push(("dhcpcd", TaskType::Network));
    patterns.push(("wpa_supplicant", TaskType::Network));
    patterns.push(("nginx", TaskType::Network));
    patterns.push(("apache", TaskType::Network));
    patterns.push(("httpd", TaskType::Network));
    patterns.push(("node", TaskType::Network));
    patterns.push(("npm", TaskType::Network));
    patterns.push(("deno", TaskType::Network));
    proof {
        assert(patterns@ =~= old(patterns)@ + network_patterns());
    }
}

fn push_cpu_patterns(patterns: &mut Vec<(&'static str, TaskType)>)
    ensures
        final(patterns)@ == old(patterns)@ + cpu_patterns(),
{
    patterns.push(("cc1", TaskType::CpuIntensive));
    patterns.push(("rustc", TaskType::CpuIntensive));
    patterns.push(("make", TaskType::CpuIntensive));
    patterns.push(("cargo", TaskType::CpuIntensive));
    patterns.push(("gcc", TaskType::CpuIntensive));
    patterns.push(("clang", TaskType::CpuIntensive));
    patterns.push(("g++", TaskType::CpuIntensive));
    patterns.push(("ld", TaskType::CpuIntensive));
    patterns.push(("as", TaskType::CpuIntensive));
    patterns.push(("ffmpeg", TaskType::CpuIntensive));
    patterns.push(("blender", TaskType::CpuIntensive));
    patterns.push(("gimp", TaskType::CpuIntensive));
    patterns.push(("inkscape", TaskType::CpuIntensive));
    patterns.push(("handbrake", TaskType::CpuIntensive));
    patterns.push(("x264", TaskType::CpuIntensive));
    patterns.push(("x265", TaskType::CpuIntensive));
    patterns.push(("vpxenc", TaskType::CpuIntensive));
    patterns.push(("tar", TaskType::CpuIntensive));
    patterns.push(("gzip", TaskType::CpuIntensive));
    patterns.push(("bzip2", TaskType::CpuIntensive));
    patterns.push(("xz", TaskType::CpuIntensive));
    patterns.push(("zip", TaskType::CpuIntensive));
    patterns.push(("7z", TaskType::CpuIntensive));
    patterns.push(("convert", TaskType::CpuIntensive));
    patterns.push(("montage", TaskType::CpuIntensive));
    proof {
        assert(patterns@ =~= old(patterns)@ + cpu_patterns());
    }
}

fn push_desktop_patterns(patterns: &mut Vec<(&'static str, TaskType)>)
    ensures
        final(patterns)@ == old(patterns)@ + desktop_patterns(),
{
    patterns.push(("gnome-shell", TaskType::Desktop));
    patterns.push(("kde", TaskType::Desktop));
    patterns.push(("plasma", TaskType::Desktop));
    patterns.push(("kwin", TaskType::Desktop));
    patterns.push(("xorg", TaskType::Desktop));
    patterns.push(("wayland", TaskType::Desktop));
    patterns.push(("pulseaudio", TaskType::Desktop));
    patterns.push(("pipewire", TaskType::Desktop));
    patterns.push(("mutter", TaskType::Desktop));
    patterns.push(("compiz", TaskType::Desktop));
    patterns.push(("enlightenment", TaskType::Desktop));
    patterns.push(("xfce4", TaskType::Desktop));
    patterns.push(("lxde", TaskType::Desktop));
    patterns.push(("mate-panel", TaskType::Desktop));
    patterns.push(("cinnamon", TaskType::Desktop));
    patterns.push(("budgie", TaskType::Desktop));
    patterns.push(("polybar", TaskType::Desktop));
    patterns.push(("waybar", TaskType::Desktop));
    patterns.push(("dunst", TaskType::Desktop));
    patterns.push(("mako", TaskType::Desktop));
    patterns.push(("rofi", TaskType::Desktop));
    patterns.push(("dmenu", TaskType::Desktop));
    proof {
        assert(patterns@ =~= old(patterns)@ + desktop_patterns());
    }
}

fn push_memory_patterns(patterns: &mut Vec<(&'static str, TaskType)>)
    ensures
        final(patterns)@ == old(patterns)@ + memory_patterns(),
{
    patterns.push(("postgres", TaskType::MemoryHeavy));
    patterns.push(("postgresql", TaskType::MemoryHeavy));
    patterns.push(("mysql", TaskType::MemoryHeavy));
    patterns.push(("mariadb", TaskType::MemoryHeavy));
    patterns.push(("redis", TaskType::MemoryHeavy));
    patterns.push(("memcached", TaskType::MemoryHeavy));
    patterns.push(("mongodb", TaskType::MemoryHeavy));
    patterns.push(("cassandra", TaskType::MemoryHeavy));
    patterns.push(("elasticsearch", TaskType::MemoryHeavy));
    patterns.push(("java", TaskType::MemoryHeavy));
    patterns.push(("electron", TaskType::MemoryHeavy));
    patterns.push(("idea", TaskType::MemoryHeavy));
    patterns.push(("pycharm", TaskType::MemoryHeavy));
    patterns.push(("studio", TaskType::MemoryHeavy));
    patterns.push(("vscode", TaskType::MemoryHeavy));
    patterns.push(("code", TaskType::MemoryHeavy));
    patterns.push(("docker", TaskType::MemoryHeavy));
    patterns.push(("containerd", TaskType::MemoryHeavy));
    patterns.push(("qemu", TaskType::MemoryHeavy));
    patterns.push(("virtualbox", TaskType::MemoryHeavy));
    proof {
        assert(patterns@ =~= old(patterns)@ + memory_patterns());
    }
}

fn push_system_patterns(patterns: &mut Vec<(&'static str, TaskType)>)
    ensures
        final(patterns)@ == old(patterns)@ + system_patterns(),
{
    patterns.push(("systemd", TaskType::System));
    patterns.push(("init", TaskType::System));
    patterns.push(("kworker", TaskType::System));
    patterns.push(("kswapd", TaskType::System));
    patterns.push(("kthreadd", TaskType::System));
    patterns.push(("ksoftirqd", TaskType::System));
    patterns.push(("migration", TaskType::System));
    patterns.push(("rcu", TaskType::System));
    patterns.push(("watchdog", TaskType::System));
    patterns.push(("irqbalance", TaskType::System));
    patterns.push(("systemd-journald", TaskType::System));
    patterns.push(("systemd-udevd", TaskType::System));
    patterns.push(("systemd-logind", TaskType::System));
    patterns.push(("dbus-daemon", TaskType::System));
    patterns.push(("accounts-daemon", TaskType::System));
    patterns.push(("polkitd", TaskType::System));
    patterns.push(("rtkit-daemon", TaskType::System));
    patterns.push(("udisksd", TaskType::System));
    patterns.push(("upowerd", TaskType::System));
    proof {
        assert(patterns@ =~= old(patterns)@ + system_patterns());
    }
}

fn push_interactive_patterns(patterns: &mut Vec<(&'static str, TaskType)>)
    ensures
        final(patterns)@ == old(patterns)@ + interactive_patterns(),
{
    patterns.push(("bash", TaskType::Interactive));
    patterns.push(("zsh", TaskType::Interactive));
    patterns.push(("fish", TaskType::Interactive));
    patterns.push(("sh", TaskType::Interactive));
    patterns.push(("vim", TaskType::Interactive));
    patterns.push(("nvim", TaskType::Interactive));
    patterns.push(("emacs", TaskType::Interactive));
    patterns.push(("nano", TaskType::Interactive));
    patterns.push(("less", TaskType::Interactive));
    patterns.push(("more", TaskType::Interactive));
    patterns.push(("cat", TaskType::Interactive));
    patterns.push(("grep", TaskType::Interactive));
    patterns.push(("awk", TaskType::Interactive));
    patterns.push(("sed", TaskType::Interactive));
    patterns.push(("tmux", TaskType::Interactive));
    patterns.push(("screen", TaskType::Interactive));
    patterns.push(("htop", TaskType::Interactive));
    patterns.push(("top", TaskType::Interactive));
    patterns.push(("btop", TaskType::Interactive));
    patterns.push(("glances", TaskType::Interactive));
    patterns.push(("alacritty", TaskType::Interactive));
    patterns.push(("kitty", TaskType::Interactive));
    patterns.push(("konsole", TaskType::Interactive));
    patterns.push(("gnome-terminal", TaskType::Interactive));
    patterns.push(("terminator", TaskType::Interactive));
    patterns.push(("yakuake", TaskType::Interactive));
    patterns.push(("st", TaskType::Interactive));
    proof {
        assert(patterns@ =~= old(patterns)@ + interactive_patterns());
    }
}

impl TaskClassifier {
    /// Build the classifier over the fixed pattern table.
    pub fn new() -> (r: TaskClassifier)
        ensures
            r@ == pattern_table(),
    {
        let mut patterns: Vec<(&'static str, TaskType)> = Vec::new();
        push_network_patterns(&mut patterns);
        push_cpu_patterns(&mut patterns);
        push_desktop_patterns(&mut patterns);
        push_memory_patterns(&mut patterns);
        push_system_patterns(&mut patterns);
        push_interactive_patterns(&mut patterns);
        TaskClassifier { patterns }
    }

    /// Classify a task by its identifier string: browser names first, then
    /// an exact table match, then the first table pattern contained in the
    /// identifier, then the default category.
    pub fn classify(&self, comm: &str) -> (t: TaskType)
        ensures
            t == spec_classify(self@, comm@),
    {
        if str_has_substring(comm, "firefox") || str_has_substring(comm, "chrome")
            || str_has_substring(comm, "chromium") {
            return TaskType::Network;
        }

        let n = self.patterns.len();
        let mut i: usize = 0;
        while i < n
            invariant
                n == self.patterns@.len(),
                i <= n,
                forall|k: int| 0 <= k < i ==> #[trigger] self.patterns@[k].0@ != comm@,
                !is_browser_name(comm@),
            decreases n - i,
        {
            let (pat, t) = self.patterns[i];
            if str_eq(pat, comm) {
                proof {
                    lemma_first_exact_found(self.patterns@, comm@, i as int);
                }
                return t;
            }
            i += 1;
        }
        proof {
            lemma_first_exact_none(self.patterns@, comm@);
        }

        let mut i: usize = 0;
        while i < n
            invariant
                n == self.patterns@.len(),
                i <= n,
                forall|k: int| 0 <= k < i ==> !has_substring(comm@, #[trigger] self.patterns@[k].0@),
                first_exact(self.patterns@, comm@) is None,
                !is_browser_name(comm@),
            decreases n - i,
        {
            let (pat, t) = self.patterns[i];
            if str_has_substring(comm, pat) {
                proof {
                    lemma_first_partial_found(self.patterns@, comm@, i as int);
                }
                return t;
            }
            i += 1;
        }
        proof {
            lemma_first_partial_none(self.patterns@, comm@);
        }

        TaskType::Interactive
    }

    /// A task is critical exactly when its process id is the reserved init
    /// id, independent of its identifier string.
    pub fn is_critical(pid: i32) -> (r: bool)
        ensures
            r == (pid == 1),
    {
        pid == 1
    }
}

impl Default for TaskClassifier {
    fn default() -> (r: TaskClassifier)
        ensures
            r@ == pattern_table(),
    {
        TaskClassifier::new()
    }
}

} // verus!
