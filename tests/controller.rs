use cpu_cat::animator::{Animator, Event, Tick, MAX_FRAME};
use cpu_cat::rate::{frame_delay_ms, FALLBACK_USAGE};
use cpu_cat::sampler::{sample_usage, usage_from_idle};
use cpu_cat::theme::{select_theme, ThemeMenu, ThemeMode};

fn quiet() -> Event {
    Event { usage: None, command: None }
}

#[test]
fn delay_endpoints() {
    assert_eq!(frame_delay_ms(0), 200);
    assert_eq!(frame_delay_ms(500), 200);
    assert_eq!(frame_delay_ms(10000), 10);
    assert_eq!(frame_delay_ms(25000), 10);
    assert_eq!(frame_delay_ms(u64::MAX), 10);
}

#[test]
fn delay_exact_values() {
    // 50% gives a load factor of 10.
    assert_eq!(frame_delay_ms(5000), 20);
    // 10% gives a load factor of 2.
    assert_eq!(frame_delay_ms(1000), 100);
    // 33% gives 200 / 6.6 = 30.3 ms, rounded down.
    assert_eq!(frame_delay_ms(3300), 30);
    // 2.5% is below the lower clamp.
    assert_eq!(frame_delay_ms(250), 200);
}

#[test]
fn delay_non_increasing_over_percent_range() {
    let mut prev = frame_delay_ms(0);
    for u in 1..=10000u64 {
        let d = frame_delay_ms(u);
        assert!(d <= prev, "delay rose at usage {}", u);
        assert!((10..=200).contains(&d));
        prev = d;
    }
}

#[test]
fn frames_cycle_regardless_of_usage_and_theme() {
    let mut a = Animator::new();
    let usages = [Some(0), None, Some(10000), Some(4200), None, Some(99), None];
    let commands = [None, Some(1), None, Some(0), Some(1), None, Some(0)];
    for n in 0..23usize {
        let s = a.step(usages[n % usages.len()], commands[n % commands.len()]);
        assert_eq!(s.tick.frame, n % 5);
        assert!(s.tick.frame <= MAX_FRAME);
    }
}

#[test]
fn dark_then_light_commands() {
    let mut a = Animator::new();
    let first = a.step(None, None);
    assert_eq!(first.tick.theme, ThemeMode::Light);
    let dark = a.step(None, Some(1));
    assert_eq!(dark.tick.theme, ThemeMode::Dark);
    for _ in 0..4 {
        assert_eq!(a.step(Some(3000), None).tick.theme, ThemeMode::Dark);
    }
    let light = a.step(None, Some(0));
    assert_eq!(light.tick.theme, ThemeMode::Light);
    assert_eq!(a.step(None, None).tick.theme, ThemeMode::Light);
}

#[test]
fn any_nonzero_command_selects_dark() {
    let mut a = Animator::new();
    assert_eq!(a.step(None, Some(7)).tick.theme, ThemeMode::Dark);
    assert_eq!(ThemeMode::from_command(0), ThemeMode::Light);
    assert_eq!(ThemeMode::from_command(1), ThemeMode::Dark);
    assert_eq!(ThemeMode::from_command(usize::MAX), ThemeMode::Dark);
}

#[test]
fn silent_sampler_reuses_cache() {
    let mut a = Animator::new();
    assert_eq!(a.step(Some(5000), None).delay_ms, 20);
    assert_eq!(a.usage_cache, 5000);
    for _ in 0..3 {
        assert_eq!(a.step(None, None).delay_ms, 20);
        assert_eq!(a.usage_cache, 5000);
    }
    assert_eq!(a.step(Some(10000), None).delay_ms, 10);
    assert_eq!(a.step(None, Some(1)).delay_ms, 10);
}

#[test]
fn fallback_before_first_measurement() {
    let mut a = Animator::new();
    assert_eq!(a.usage_cache, FALLBACK_USAGE);
    assert_eq!(a.step(None, None).delay_ms, 200);
    assert_eq!(sample_usage(None), 100);
    assert_eq!(a.step(Some(sample_usage(None)), None).delay_ms, 200);
    assert_eq!(frame_delay_ms(FALLBACK_USAGE), 200);
}

#[test]
fn idle_usage_scenario() {
    let mut a = Animator::new();
    let s0 = a.step(Some(0), None);
    let s1 = a.step(None, None);
    assert_eq!(s0.delay_ms, 200);
    assert_eq!(s1.delay_ms, 200);
    assert_eq!(s0.tick.frame, 0);
    assert_eq!(s1.tick.frame, 1);
}

#[test]
fn full_usage_scenario() {
    let mut a = Animator::new();
    let s = a.step(Some(10000), None);
    assert_eq!(s.delay_ms, 10);
    assert_eq!(s.tick, Tick { frame: 0, theme: ThemeMode::Light });
}

#[test]
fn two_queued_commands_each_observed() {
    // Commands 1 and 0 queued between two ticks: each iteration drains one.
    let mut a = Animator::new();
    let queued = [1usize, 0usize];
    let t1 = a.step(None, Some(queued[0]));
    let t2 = a.step(None, Some(queued[1]));
    assert_eq!(t1.tick.theme, ThemeMode::Dark);
    assert_eq!(t2.tick.theme, ThemeMode::Light);
    assert_eq!(t1.tick.to_pair(), (0, true));
    assert_eq!(t2.tick.to_pair(), (1, false));
}

#[test]
fn run_matches_single_steps() {
    let events = vec![
        Event { usage: Some(700), command: None },
        quiet(),
        Event { usage: None, command: Some(1) },
        Event { usage: Some(10000), command: Some(0) },
        quiet(),
        quiet(),
    ];
    let mut a = Animator::new();
    let mut b = Animator::new();
    let steps = a.run(&events);
    assert_eq!(steps.len(), events.len());
    for (e, s) in events.iter().zip(steps.iter()) {
        assert_eq!(*s, b.step(e.usage, e.command));
    }
    assert_eq!(a, b);
    assert_eq!(steps[0].delay_ms, 142);
    assert_eq!(steps[5].tick.frame, 0);
}

#[test]
fn sampler_usage_from_idle() {
    assert_eq!(usage_from_idle(2500), 7500);
    assert_eq!(usage_from_idle(0), 10000);
    assert_eq!(usage_from_idle(10000), 0);
    assert_eq!(usage_from_idle(12000), 0);
    assert_eq!(sample_usage(Some(9000)), 1000);
}

#[test]
fn theme_menu_selection() {
    let init = ThemeMenu::initial();
    assert!(init.light_checked && !init.light_enabled);
    assert!(!init.dark_checked && init.dark_enabled);
    let d = select_theme(ThemeMode::Dark);
    assert_eq!(d.command, 1);
    assert_eq!(
        d.menu,
        ThemeMenu { dark_checked: true, dark_enabled: false, light_checked: false, light_enabled: true }
    );
    let l = select_theme(ThemeMode::Light);
    assert_eq!(l.command, 0);
    assert_eq!(l.menu, init);
    assert!(ThemeMode::Dark.is_dark());
    assert_eq!(ThemeMode::from_dark_flag(false), ThemeMode::Light);
}
