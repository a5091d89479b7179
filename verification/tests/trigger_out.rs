use std::cell::{Cell, RefCell};
use std::rc::Rc;

use rust_embedded::adc::{AdcInstance, AdcOptions, AdcSampleBuffer, AdcTrait, AdcTriggerSource};
use rust_embedded::callback_registry::{Callback, CallbackRegistry, PendingQueue};
use rust_embedded::dma::DmaRequest;
use rust_embedded::duration::Duration;
use rust_embedded::fake_adc::Adc;
use rust_embedded::fake_clock::ClockProvider;
use rust_embedded::fake_dma::Dma;
use rust_embedded::fake_pwm::Pwm;
use rust_embedded::motor_control::{retrieve_conversions, Fault};
use rust_embedded::unit_interval::UnitInterval;
use rust_embedded::pwm::{PwmOptions, PwmTimer, PwmTrait};
use rust_embedded::uptime::Uptime;

type Registry = CallbackRegistry<Box<dyn Callback>>;

/// A registry whose clock ticks once a nanosecond.
fn registry() -> Registry {
    let provider = ClockProvider::new((), 1_000_000_000);
    CallbackRegistry::new(provider)
}

/// Relays the PWM's trigger-out signal: reschedules it while the PWM runs.
struct PwmTriggerOut(Rc<RefCell<Pwm>>);

impl Callback for PwmTriggerOut {
    fn call(&mut self, now: Uptime, pending: &mut PendingQueue) {
        self.0.borrow().on_trigger_out(now, pending);
    }
}

/// Records every time its trigger fires.
struct Record(Rc<RefCell<Vec<Uptime>>>);

impl Callback for Record {
    fn call(&mut self, now: Uptime, _pending: &mut PendingQueue) {
        self.0.borrow_mut().push(now);
    }
}

/// Counts how often its trigger fires.
struct Count(Rc<Cell<u32>>);

impl Callback for Count {
    fn call(&mut self, _now: Uptime, _pending: &mut PendingQueue) {
        self.0.set(self.0.get() + 1);
    }
}

fn new_pwm() -> Rc<RefCell<Pwm>> {
    Rc::new(RefCell::new(Pwm::new(PwmTimer::Stm32g4Tim1, 170_000_000)))
}

/// Registers the PWM's own trigger-out relay, once per PWM.
fn hook_pwm(registry: &mut Registry, pwm: &Rc<RefCell<Pwm>>) {
    let name = pwm.borrow().trigger_out_name();
    registry.register(name, Box::new(PwmTriggerOut(pwm.clone())));
}

/// Opens the PWM on the registry that simulates its trigger output.
fn open_pwm(registry: &mut Registry, pwm: &Rc<RefCell<Pwm>>, options: PwmOptions) {
    pwm.borrow_mut().open_with_registry(options, registry);
}

fn pwm_options(channels: u8) -> PwmOptions {
    PwmOptions::new(20_000, channels, Duration::from_nanos(250), false)
}

fn mid_point_options(frequency_hz: u32) -> PwmOptions {
    PwmOptions::new(frequency_hz, 3, Duration::from_nanos(250), true)
}

#[test]
fn open_without_mid_point_trigger_never_schedules_anything() {
    let mut registry = registry();
    let pwm = new_pwm();
    hook_pwm(&mut registry, &pwm);
    open_pwm(&mut registry, &pwm, pwm_options(3)); // mid_point_trigger: false

    let fired = Rc::new(Cell::new(0));
    registry.register(
        &format!("{:?}", PwmTimer::Stm32g4Tim1.trigger_out_2()),
        Box::new(Count(fired.clone())),
    );
    registry.advance_clock_by(Duration::from_seconds(1));
    assert_eq!(fired.get(), 0);
}

#[test]
fn open_with_mid_point_trigger_fires_periodically_at_the_configured_frequency() {
    let mut registry = registry();
    let pwm = new_pwm();

    let times = Rc::new(RefCell::new(Vec::new()));
    registry.register(
        &format!("{:?}", PwmTimer::Stm32g4Tim1.trigger_out_2()),
        Box::new(Record(times.clone())),
    );

    let start = registry.now();
    hook_pwm(&mut registry, &pwm);
    open_pwm(&mut registry, &pwm, mid_point_options(1_000)); // 1ms period
    registry.advance_clock_by(Duration::from_millis(35));

    // First edge at period/2, then every full period after that, by
    // repeated addition.
    let times = times.borrow();
    assert_eq!(times.len(), 35, "{times:?}");
    let half_period = Duration::from_nanos(500_000);
    let period = Duration::from_nanos(1_000_000);
    let mut expected = start + half_period;
    for (i, &t) in times.iter().enumerate() {
        assert_eq!(t, expected, "edge {i}");
        expected = expected + period;
    }
}

#[test]
fn close_stops_the_periodic_trigger_out() {
    let mut registry = registry();
    let pwm = new_pwm();

    let count = Rc::new(Cell::new(0));
    registry.register(
        &format!("{:?}", PwmTimer::Stm32g4Tim1.trigger_out_2()),
        Box::new(Count(count.clone())),
    );

    hook_pwm(&mut registry, &pwm);
    open_pwm(&mut registry, &pwm, mid_point_options(1_000)); // 1ms period
    registry.advance_clock_by(Duration::from_millis(5));
    pwm.borrow_mut().close();
    // One firing may already be queued from before the close; flush it, then
    // confirm the signal has stopped for good.
    registry.advance_clock_by(Duration::from_millis(5));
    let settled = count.get();
    assert!(settled > 0);
    registry.advance_clock_by(Duration::from_millis(50));
    assert_eq!(count.get(), settled);
}

#[test]
fn reopening_with_a_different_frequency_changes_the_period() {
    let mut registry = registry();
    let pwm = new_pwm();

    let times = Rc::new(RefCell::new(Vec::new()));
    registry.register(
        &format!("{:?}", PwmTimer::Stm32g4Tim1.trigger_out_2()),
        Box::new(Record(times.clone())),
    );

    hook_pwm(&mut registry, &pwm);
    open_pwm(&mut registry, &pwm, mid_point_options(1_000)); // 1ms period
    registry.advance_clock_by(Duration::from_millis(2));
    pwm.borrow_mut().close();
    open_pwm(&mut registry, &pwm, mid_point_options(500)); // now 2ms period
    registry.advance_clock_by(Duration::from_millis(10));

    assert!(times.borrow().len() > 1);
}

#[test]
fn the_trigger_out_fires_half_a_period_in_then_every_period() {
    let mut registry = registry();
    let pwm = new_pwm();
    let times = Rc::new(RefCell::new(Vec::new()));
    registry.register(pwm.borrow().trigger_out_name(), Box::new(Record(times.clone())));
    hook_pwm(&mut registry, &pwm);
    open_pwm(&mut registry, &pwm, mid_point_options(500)); // 2ms period
    registry.advance_clock_by(Duration::from_millis(10));
    // 1ms, then every 2ms: 1, 3, 5, 7, 9.
    let times = times.borrow();
    assert_eq!(times.len(), 5);
    for pair in times.windows(2) {
        assert_eq!(pair[1] - pair[0], Duration::from_nanos(2_000_000));
    }
}

/// Starts a conversion on the trigger wire's edge.
struct AdcTriggerOut(Rc<RefCell<Adc>>);

impl Callback for AdcTriggerOut {
    fn call(&mut self, now: Uptime, pending: &mut PendingQueue) {
        self.0.borrow_mut().on_trigger_out(now, pending);
    }
}

/// Finishes the conversion a trigger-out started.
struct AdcCompletion(Rc<RefCell<Adc>>);

impl Callback for AdcCompletion {
    fn call(&mut self, now: Uptime, pending: &mut PendingQueue) {
        self.0.borrow_mut().on_conversion_complete(now, pending);
    }
}

fn buffer() -> &'static AdcSampleBuffer {
    Box::leak(Box::new(AdcSampleBuffer::new()))
}

fn new_adc(instance: AdcInstance, request: DmaRequest) -> Rc<RefCell<Adc>> {
    Rc::new(RefCell::new(Adc::new(instance, request)))
}

/// Opens the ADC and registers its two handlers: the trigger wire's edge
/// starts a conversion, and its private completion finishes it.
fn open_adc(registry: &mut Registry, adc: &Rc<RefCell<Adc>>, options: AdcOptions) {
    adc.borrow_mut().open(options, &Dma::new());
    registry.register(options.trigger_source().name(), Box::new(AdcTriggerOut(adc.clone())));
    let completion = adc.borrow().completion_name();
    registry.register(completion, Box::new(AdcCompletion(adc.clone())));
}

fn channel_conversion_time() -> Duration {
    Duration::from_nanos(1_000)
}

#[test]
fn trigger_out_edge_does_not_complete_the_conversion_immediately() {
    let mut registry = registry();
    let adc = new_adc(AdcInstance::Stm32g4Adc1, DmaRequest::Stm32g4DmamuxReqAdc1);
    open_adc(
        &mut registry,
        &adc,
        AdcOptions::new(&[4], buffer(), AdcTriggerSource::Stm32g4Tim1TriggerOut2Rising),
    );

    registry.fire("Stm32g4Tim1TriggerOut2Rising");
    // The edge only starts the simulated conversion; it completes later.
    assert!(!adc.borrow_mut().try_retrieve_result());
}

#[test]
fn conversion_completes_after_the_scheduled_conversion_time() {
    let mut registry = registry();
    let adc = new_adc(AdcInstance::Stm32g4Adc1, DmaRequest::Stm32g4DmamuxReqAdc1);
    open_adc(
        &mut registry,
        &adc,
        AdcOptions::new(&[4], buffer(), AdcTriggerSource::Stm32g4Tim1TriggerOut2Rising),
    );

    registry.fire("Stm32g4Tim1TriggerOut2Rising");
    registry.advance_clock_by(Duration::from_millis(1));
    assert!(adc.borrow_mut().try_retrieve_result());
}

#[test]
fn a_longer_sequence_takes_simulated_time_longer_to_complete() {
    let mut registry = registry();
    let adc1 = new_adc(AdcInstance::Stm32g4Adc1, DmaRequest::Stm32g4DmamuxReqAdc1);
    open_adc(
        &mut registry,
        &adc1,
        AdcOptions::new(&[4, 7], buffer(), AdcTriggerSource::Stm32g4Tim1TriggerOut2Rising),
    );
    let adc2 = new_adc(AdcInstance::Stm32g4Adc2, DmaRequest::Stm32g4DmamuxReqAdc2);
    open_adc(
        &mut registry,
        &adc2,
        AdcOptions::new(&[1, 2, 3], buffer(), AdcTriggerSource::Stm32g4Tim1TriggerOut2Rising),
    );

    // Both share the same trigger-out edge.
    registry.fire("Stm32g4Tim1TriggerOut2Rising");

    // adc1 (2 channels) finishes before adc2 (3 channels) does.
    registry.advance_clock_by(channel_conversion_time() * 2);
    assert!(adc1.borrow_mut().try_retrieve_result());
    assert!(!adc2.borrow_mut().try_retrieve_result());

    // Comfortably past adc2's completion too.
    registry.advance_clock_by(channel_conversion_time() * 5);
    assert!(adc2.borrow_mut().try_retrieve_result());
}

#[test]
fn a_trigger_out_edge_while_still_converting_is_dropped() {
    let mut registry = registry();
    let adc = new_adc(AdcInstance::Stm32g4Adc1, DmaRequest::Stm32g4DmamuxReqAdc1);
    open_adc(
        &mut registry,
        &adc,
        AdcOptions::new(&[4], buffer(), AdcTriggerSource::Stm32g4Tim1TriggerOut2Rising),
    );

    registry.fire("Stm32g4Tim1TriggerOut2Rising"); // starts converting
    registry.fire("Stm32g4Tim1TriggerOut2Rising"); // dropped: still converting
    registry.advance_clock_by(Duration::from_millis(1));

    assert!(adc.borrow_mut().try_retrieve_result());
    assert!(!adc.borrow_mut().try_retrieve_result()); // only completed once
    assert!(adc.borrow().fake().is_open());
}

#[test]
fn closing_stops_a_conversion_already_scheduled_from_completing() {
    let mut registry = registry();
    let adc = new_adc(AdcInstance::Stm32g4Adc1, DmaRequest::Stm32g4DmamuxReqAdc1);
    open_adc(
        &mut registry,
        &adc,
        AdcOptions::new(&[4], buffer(), AdcTriggerSource::Stm32g4Tim1TriggerOut2Rising),
    );

    registry.fire("Stm32g4Tim1TriggerOut2Rising");
    adc.borrow_mut().close();
    registry.advance_clock_by(Duration::from_millis(1));

    assert!(!adc.borrow_mut().try_retrieve_result());
}

#[test]
fn a_finished_conversion_raises_the_shared_interrupt_at_its_completion_time() {
    let mut registry = registry();
    let adc = new_adc(AdcInstance::Stm32g4Adc2, DmaRequest::Stm32g4DmamuxReqAdc2);
    open_adc(
        &mut registry,
        &adc,
        AdcOptions::new(&[1, 2, 3], buffer(), AdcTriggerSource::Stm32g4Tim1TriggerOut2Rising),
    );
    let interrupts = Rc::new(RefCell::new(Vec::new()));
    let vector = adc.borrow().interrupt_name();
    assert_eq!(vector, "ADC1_2");
    registry.register(vector, Box::new(Record(interrupts.clone())));

    let start = registry.now();
    registry.fire("Stm32g4Tim1TriggerOut2Rising");
    registry.advance_clock_by(Duration::from_millis(1));
    assert_eq!(*interrupts.borrow(), vec![start + channel_conversion_time() * 3]);
    assert_eq!(adc.borrow().completion_name(), "Stm32g4Adc2ConversionComplete");
}

#[test]
fn the_pwm_trigger_out_drives_the_adc_every_period() {
    let mut registry = registry();
    let pwm = new_pwm();
    let adc = new_adc(AdcInstance::Stm32g4Adc1, DmaRequest::Stm32g4DmamuxReqAdc1);
    open_adc(
        &mut registry,
        &adc,
        AdcOptions::new(&[4], buffer(), AdcTriggerSource::Stm32g4Tim1TriggerOut2Rising),
    );
    let interrupts = Rc::new(Cell::new(0));
    registry.register("ADC1_2", Box::new(Count(interrupts.clone())));
    hook_pwm(&mut registry, &pwm);
    open_pwm(&mut registry, &pwm, mid_point_options(1_000));

    // First edge at 0.5 ms: one conversion, which re-arms once retrieved.
    registry.advance_clock_by(Duration::from_micros(600));
    assert_eq!(interrupts.get(), 1);
    assert!(adc.borrow_mut().try_retrieve_result());
    registry.advance_clock_by(Duration::from_millis(1));
    assert_eq!(interrupts.get(), 2);
    // Not retrieved: the next edge is dropped.
    registry.advance_clock_by(Duration::from_millis(1));
    assert_eq!(interrupts.get(), 2);
}

#[test]
fn adc_isr_fires_automatically_from_the_pwm_trigger_out() {
    let mut registry = registry();
    let pwm = new_pwm();
    hook_pwm(&mut registry, &pwm);
    let adc1 = new_adc(AdcInstance::Stm32g4Adc1, DmaRequest::Stm32g4DmamuxReqAdc1);
    open_adc(
        &mut registry,
        &adc1,
        AdcOptions::new(&[13, 11], buffer(), AdcTriggerSource::Stm32g4Tim1TriggerOut2Rising),
    );
    let adc2 = new_adc(AdcInstance::Stm32g4Adc2, DmaRequest::Stm32g4DmamuxReqAdc2);
    open_adc(
        &mut registry,
        &adc2,
        AdcOptions::new(&[16, 18, 1], buffer(), AdcTriggerSource::Stm32g4Tim1TriggerOut2Rising),
    );
    let pot = UnitInterval::new(0x1234 << 16);
    adc1.borrow_mut().fake_mut().set_sample(1, pot);

    // Nothing here triggers the ADCs directly: only the PWM's simulated
    // mid-point trigger-out does, once it is open at 20 kHz.
    open_pwm(&mut registry, &pwm, mid_point_options(20_000));
    // Past the first trigger-out edge (half a period, 25 us) and both
    // sequences' conversion time.
    assert!(registry.advance_clock_by(Duration::from_micros(100)));

    let (fault, run) =
        retrieve_conversions(&mut *adc1.borrow_mut(), &mut *adc2.borrow_mut(), Fault::NoFault);
    assert_eq!(fault, Fault::NoFault);
    assert!(run);
    assert_eq!(adc1.borrow().get_sample(1), pot);
}
