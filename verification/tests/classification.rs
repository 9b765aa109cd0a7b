use horoscope::Element;
use horoscope::Planet;
use horoscope::TaskClassifier;
use horoscope::TaskType;
use horoscope::ZodiacSign;

#[test]
fn test_task_classification_network() {
    let classifier = TaskClassifier::new();

    assert_eq!(classifier.classify("sshd"), TaskType::Network);
    assert_eq!(classifier.classify("firefox"), TaskType::Network);
    assert_eq!(classifier.classify("curl"), TaskType::Network);
    assert_eq!(classifier.classify("ssh").ruling_planet(), Planet::Mercury);
}

#[test]
fn test_task_classification_cpu() {
    let classifier = TaskClassifier::new();

    assert_eq!(classifier.classify("rustc"), TaskType::CpuIntensive);
    assert_eq!(classifier.classify("gcc"), TaskType::CpuIntensive);
    assert_eq!(classifier.classify("ffmpeg"), TaskType::CpuIntensive);
    assert_eq!(classifier.classify("cargo").ruling_planet(), Planet::Mars);
}

#[test]
fn test_task_classification_desktop() {
    let classifier = TaskClassifier::new();

    assert_eq!(classifier.classify("gnome-shell"), TaskType::Desktop);
    assert_eq!(classifier.classify("pulseaudio"), TaskType::Desktop);
    assert_eq!(classifier.classify("xorg"), TaskType::Desktop);
}

#[test]
fn test_task_classification_memory() {
    let classifier = TaskClassifier::new();

    assert_eq!(classifier.classify("postgres"), TaskType::MemoryHeavy);
    assert_eq!(classifier.classify("java"), TaskType::MemoryHeavy);
    assert_eq!(classifier.classify("electron"), TaskType::MemoryHeavy);
}

#[test]
fn test_task_classification_system() {
    let classifier = TaskClassifier::new();

    assert_eq!(classifier.classify("systemd"), TaskType::System);
    assert_eq!(classifier.classify("kworker/0:0"), TaskType::System);
    assert_eq!(classifier.classify("init"), TaskType::System);
}

#[test]
fn test_task_classification_interactive() {
    let classifier = TaskClassifier::new();

    assert_eq!(classifier.classify("bash"), TaskType::Interactive);
    assert_eq!(classifier.classify("vim"), TaskType::Interactive);
    assert_eq!(classifier.classify("tmux"), TaskType::Interactive);
}

#[test]
fn test_task_classification_default() {
    let classifier = TaskClassifier::new();

    assert_eq!(classifier.classify("unknown_process"), TaskType::Interactive);
    assert_eq!(classifier.classify("my_custom_app"), TaskType::Interactive);
}

#[test]
fn test_partial_matching() {
    let classifier = TaskClassifier::new();

    assert_eq!(classifier.classify("kworker/0:1"), TaskType::System);
    assert_eq!(classifier.classify("kworker/1:0H"), TaskType::System);
    assert_eq!(classifier.classify("systemd-journald"), TaskType::System);
}

#[test]
fn test_critical_pid() {
    assert!(TaskClassifier::is_critical(1));
    assert!(!TaskClassifier::is_critical(1000));
    assert!(!TaskClassifier::is_critical(0));
}

#[test]
fn test_ruling_planets() {
    assert_eq!(TaskType::Network.ruling_planet(), Planet::Mercury);
    assert_eq!(TaskType::CpuIntensive.ruling_planet(), Planet::Mars);
    assert_eq!(TaskType::Desktop.ruling_planet(), Planet::Venus);
    assert_eq!(TaskType::MemoryHeavy.ruling_planet(), Planet::Jupiter);
    assert_eq!(TaskType::System.ruling_planet(), Planet::Saturn);
    assert_eq!(TaskType::Interactive.ruling_planet(), Planet::Moon);
    assert_eq!(TaskType::Critical.ruling_planet(), Planet::Sun);
}

#[test]
fn test_zodiac_elements() {
    assert_eq!(ZodiacSign::Aries.element(), Element::Fire);
    assert_eq!(ZodiacSign::Taurus.element(), Element::Earth);
    assert_eq!(ZodiacSign::Gemini.element(), Element::Air);
    assert_eq!(ZodiacSign::Cancer.element(), Element::Water);
}

#[test]
fn test_planet_domains() {
    assert_eq!(Planet::Mercury.domain(), "Communication & Network");
    assert_eq!(Planet::Mars.domain(), "Energy & CPU-Intensive");
    assert_eq!(Planet::Venus.domain(), "Harmony & Desktop/UI");
}

#[test]
fn classifier_browser_rule_beats_table() {
    let classifier = TaskClassifier::new();

    assert_eq!(classifier.classify("firefox-esr"), TaskType::Network);
    assert_eq!(classifier.classify("google-chrome"), TaskType::Network);
    assert_eq!(classifier.classify("chromium"), TaskType::Network);
}

#[test]
fn classifier_exact_match_beats_substring() {
    let classifier = TaskClassifier::new();

    // "bash" contains the network pattern "sh", but the exact interactive
    // entry must win.
    assert_eq!(classifier.classify("bash"), TaskType::Interactive);
}

#[test]
fn element_partition_three_bands_each() {
    let signs = vec![
        ZodiacSign::Aries,
        ZodiacSign::Taurus,
        ZodiacSign::Gemini,
        ZodiacSign::Cancer,
        ZodiacSign::Leo,
        ZodiacSign::Virgo,
        ZodiacSign::Libra,
        ZodiacSign::Scorpio,
        ZodiacSign::Sagittarius,
        ZodiacSign::Capricorn,
        ZodiacSign::Aquarius,
        ZodiacSign::Pisces,
    ];
    let fire = signs.iter().filter(|s| s.element() == Element::Fire).count();
    let earth = signs.iter().filter(|s| s.element() == Element::Earth).count();
    let air = signs.iter().filter(|s| s.element() == Element::Air).count();
    let water = signs.iter().filter(|s| s.element() == Element::Water).count();
    assert_eq!(fire, 3);
    assert_eq!(earth, 3);
    assert_eq!(air, 3);
    assert_eq!(water, 3);
}
