use design_patterns::patterns::observer::{
    heat_index, trend, DisplayElement, Notification, ObserverPattern, ObserverPool, ObserverRef,
    Readings, Rendering, Trend, WeatherData,
};
use design_patterns::traits::{DesignPattern, DesignPatternFactory, Line};

fn observers_of(shown: &[Notification]) -> Vec<usize> {
    shown.iter().map(|n| n.observer).collect()
}

fn heat_index_f64(t: f64, rh: f64) -> f64 {
    16.923 + (0.185212 * t) + (5.37941 * rh) - (0.100254 * t * rh)
        + (0.00941695 * (t * t))
        + (0.00728898 * (rh * rh))
        + (0.000345372 * (t * t * rh))
        - (0.000814971 * (t * rh * rh))
        + (0.0000102102 * (t * t * rh * rh))
        - (0.000038646 * (t * t * t))
        + (0.0000291583 * (rh * rh * rh))
        + (0.00000142721 * (t * t * t * rh))
        + (0.000000197483 * (t * rh * rh * rh))
        - (0.0000000218429 * (t * t * t * rh * rh))
        + 0.000000000843296 * (t * t * rh * rh * rh)
        - 0.0000000000481975 * (t * t * t * rh * rh * rh)
}

#[test]
fn heat_index_golden_value() {
    let scaled = heat_index(800, 650);
    assert_eq!(scaled, 829553506371000000000000);
    let value = scaled as f64 / 1e22;
    assert!((value - heat_index_f64(80.0, 65.0)).abs() < 1e-9);
    assert!((value - 82.9553506371).abs() < 1e-9);
}

#[test]
fn heat_index_constant_term_at_zero() {
    assert_eq!(heat_index(0, 0), 169230000000000000000000);
}

#[test]
fn heat_index_extreme_readings_do_not_overflow() {
    assert_eq!(heat_index(32767, 32767), -662403362883728745038690877281575);
    assert_eq!(heat_index(-32768, 32767), 692644814145675279980348523276800);
    assert_eq!(heat_index(-32768, -32768), -503517776354496788150338728755200);
}

#[test]
fn trend_uses_strict_comparison() {
    assert_eq!(trend(292, 304), Trend::Improving);
    assert_eq!(trend(304, 292), Trend::Worsening);
    assert_eq!(trend(292, 292), Trend::Unchanged);
    assert_eq!(Trend::Unchanged.message(), "Forecast: More of the same");
    assert_eq!(Trend::Worsening.message(), "Forecast: Watch out for cooler, rainy weather");
    assert_eq!(Trend::Improving.message(), "Forecast: Improving weather on the way!");
}

fn readings(temperature: i16, humidity: i16, pressure: i16) -> Readings {
    Readings { temperature, humidity, pressure }
}

#[test]
fn forecast_trend_over_three_pressures() {
    let mut forecast = DisplayElement::forecast();
    assert_eq!(
        forecast.update(readings(800, 650, 304)),
        Rendering::Forecast { trend: Trend::Improving }
    );
    assert_eq!(
        forecast.update(readings(820, 700, 292)),
        Rendering::Forecast { trend: Trend::Worsening }
    );
    assert_eq!(
        forecast.update(readings(780, 900, 292)),
        Rendering::Forecast { trend: Trend::Unchanged }
    );
}

#[test]
fn displays_pull_what_they_need() {
    let mut current = DisplayElement::current_conditions();
    assert_eq!(
        current.update(readings(800, 650, 304)),
        Rendering::CurrentConditions { temperature: 800, humidity: 650 }
    );
    let mut heat = DisplayElement::heat_index();
    assert_eq!(
        heat.update(readings(800, 650, 304)),
        Rendering::HeatIndex { scaled: 829553506371000000000000 }
    );
    assert_eq!(heat.display(), Rendering::HeatIndex { scaled: 829553506371000000000000 });
}

fn subject_with_three(pool: &mut ObserverPool, owning: bool) -> (WeatherData, [usize; 3]) {
    let mut subject = WeatherData::new();
    let a = pool.attach(DisplayElement::current_conditions());
    let b = pool.attach(DisplayElement::heat_index());
    let c = pool.attach(DisplayElement::forecast());
    subject.add_observer(ObserverRef { id: c, owning });
    subject.add_observer(ObserverRef { id: a, owning });
    subject.add_observer(ObserverRef { id: b, owning });
    (subject, [a, b, c])
}

#[test]
fn notification_follows_subscription_order() {
    let mut pool = ObserverPool::new();
    let (mut subject, [a, b, c]) = subject_with_three(&mut pool, true);
    let shown = subject.set_measurements(800, 650, 304, &mut pool);
    assert_eq!(observers_of(&shown), vec![c, a, b]);
    assert_eq!(subject.get_temperature(), 800);
    assert_eq!(subject.get_humidity(), 650);
    assert_eq!(subject.get_pressure(), 304);
}

#[test]
fn identical_readings_still_notify() {
    let mut pool = ObserverPool::new();
    let (mut subject, _) = subject_with_three(&mut pool, true);
    assert_eq!(subject.set_measurements(1, 2, 3, &mut pool).len(), 3);
    assert_eq!(subject.set_measurements(1, 2, 3, &mut pool).len(), 3);
}

#[test]
fn notifying_with_no_observers_is_empty() {
    let mut pool = ObserverPool::new();
    let subject = WeatherData::new();
    assert!(subject.notify_observers(&mut pool).is_empty());
}

#[test]
fn subscribing_twice_notifies_once() {
    let mut pool = ObserverPool::new();
    let mut subject = WeatherData::new();
    let a = pool.attach(DisplayElement::current_conditions());
    subject.add_observer(ObserverRef { id: a, owning: true });
    subject.add_observer(ObserverRef { id: a, owning: true });
    subject.add_observer(ObserverRef { id: a, owning: false });
    let shown = subject.set_measurements(800, 650, 304, &mut pool);
    assert_eq!(observers_of(&shown), vec![a]);
}

#[test]
fn removed_observer_gets_nothing_more() {
    let mut pool = ObserverPool::new();
    let (mut subject, [a, b, c]) = subject_with_three(&mut pool, true);
    subject.remove_observer(a);
    let shown = subject.set_measurements(800, 650, 304, &mut pool);
    assert_eq!(observers_of(&shown), vec![c, b]);
    subject.remove_observer(a);
    subject.remove_observer(99);
    let shown = subject.set_measurements(820, 700, 292, &mut pool);
    assert_eq!(observers_of(&shown), vec![c, b]);
}

#[test]
fn destroyed_target_of_non_owning_reference_is_skipped() {
    let mut pool = ObserverPool::new();
    let (mut subject, [a, b, c]) = subject_with_three(&mut pool, false);
    assert!(pool.destroy(a, &subject));
    assert_eq!(pool.get(a), None);
    assert!(!pool.destroy(a, &subject));
    let shown = subject.set_measurements(800, 650, 304, &mut pool);
    assert_eq!(observers_of(&shown), vec![c, b]);
}

#[test]
fn owning_reference_keeps_its_observer_alive() {
    let mut pool = ObserverPool::new();
    let (subject, [a, _, _]) = subject_with_three(&mut pool, true);
    assert!(!pool.destroy(a, &subject));
    assert_eq!(pool.get(a), Some(DisplayElement::current_conditions()));
    assert!(!pool.destroy(7, &subject));
}

#[test]
fn weather_scenario_transcript() {
    let lines = ObserverPattern::new().run();
    assert_eq!(lines.len(), 12);
    let report = |observer: usize, rendering: Rendering| Line::Report(Notification { observer, rendering });
    assert_eq!(
        lines[0..4].to_vec(),
        vec![
            report(0, Rendering::CurrentConditions { temperature: 800, humidity: 650 }),
            report(1, Rendering::HeatIndex { scaled: 829553506371000000000000 }),
            report(2, Rendering::Forecast { trend: Trend::Improving }),
            Line::Break,
        ]
    );
    assert_eq!(lines[6], report(2, Rendering::Forecast { trend: Trend::Worsening }));
    assert_eq!(lines[8], report(0, Rendering::CurrentConditions { temperature: 780, humidity: 900 }));
    assert_eq!(lines[9], report(1, Rendering::HeatIndex { scaled: 836496713955960000000000 }));
    assert_eq!(lines[10], report(2, Rendering::Forecast { trend: Trend::Unchanged }));
    assert_eq!(lines[11], Line::Break);
}
