use rcesc::{ChannelDuty, Esc, RcEsc};

#[derive(Clone, Copy, Debug, PartialEq, Eq)]
enum Channel {
    C1,
    C2,
}

/// A stand-in for a single output: it shows the duty last written and counts the writes.
#[derive(Debug, PartialEq, Eq)]
struct Pin {
    duty: u16,
    writes: usize,
}

impl Pin {
    fn write(&mut self, duty: u16) {
        self.duty = duty;
        self.writes += 1;
    }
}

fn configured<P>(pwm: P) -> Esc<P> {
    let mut esc = Esc::new(pwm);
    esc.min_duty = 1000;
    esc.max_duty = 2000;
    esc.arm_duty = 500;
    esc.disarm_duty = 500;
    esc
}

#[test]
fn new_starts_with_all_duties_at_zero() {
    let esc = Esc::new(());
    assert_eq!(esc.arm_duty, 0);
    assert_eq!(esc.disarm_duty, 0);
    assert_eq!(esc.min_duty, 0);
    assert_eq!(esc.max_duty, 0);
}

#[test]
fn new_keeps_the_output_it_was_given() {
    let esc = Esc::new(Pin { duty: 1234, writes: 0 });
    assert_eq!(esc.pwm, Pin { duty: 1234, writes: 0 });
}

#[test]
fn new_controller_commands_zero_for_everything() {
    let esc = Esc::new(());
    assert_eq!(esc.arm(), 0);
    assert_eq!(esc.disarm(), 0);
    assert_eq!(esc.set_max_duty(), 0);
    assert_eq!(esc.set_min_duty(), 0);
    assert_eq!(esc.set_duty(4000), 0);
}

#[test]
fn longer_name_is_the_same_controller() {
    let mut esc: RcEsc<()> = RcEsc::new(());
    esc.min_duty = 1000;
    esc.max_duty = 2000;
    esc.arm_duty = 1100;
    assert_eq!(esc.arm(), 1100);
}

#[test]
fn arm_below_the_range_is_raised_to_the_lower_bound() {
    let esc = configured(());
    assert_eq!(esc.arm(), 1000);
    assert_ne!(esc.arm(), 500);
}

#[test]
fn arm_inside_the_range_is_written_as_set() {
    let mut esc = configured(());
    esc.arm_duty = 1100;
    assert_eq!(esc.arm(), 1100);
}

#[test]
fn arm_above_the_range_is_capped_at_the_upper_bound() {
    let mut esc = configured(());
    esc.arm_duty = 2600;
    assert_eq!(esc.arm(), 2000);
}

#[test]
fn arm_makes_exactly_one_write() {
    let mut esc = configured(Pin { duty: 0, writes: 0 });
    esc.arm_duty = 1100;
    let duty = esc.arm();
    esc.pwm.write(duty);
    assert_eq!(esc.pwm, Pin { duty: 1100, writes: 1 });
    assert_eq!(esc.arm_duty, 1100);
    assert_eq!(esc.disarm_duty, 500);
    assert_eq!(esc.min_duty, 1000);
    assert_eq!(esc.max_duty, 2000);
}

#[test]
fn disarm_writes_the_disarm_duty_clamped() {
    let mut esc = configured(());
    assert_eq!(esc.disarm(), 1000);
    esc.disarm_duty = 1050;
    assert_eq!(esc.disarm(), 1050);
    esc.disarm_duty = 9000;
    assert_eq!(esc.disarm(), 2000);
}

#[test]
fn disarm_makes_exactly_one_write() {
    let mut esc = configured(Pin { duty: 1700, writes: 0 });
    esc.disarm_duty = 1050;
    let duty = esc.disarm();
    esc.pwm.write(duty);
    assert_eq!(esc.pwm, Pin { duty: 1050, writes: 1 });
}

#[test]
fn disarm_with_unset_duty_commands_the_lower_bound() {
    let mut esc = Esc::new(());
    esc.min_duty = 1000;
    esc.max_duty = 2000;
    assert_eq!(esc.disarm_duty, 0);
    assert_eq!(esc.disarm(), 1000);
    assert_eq!(esc.disarm_channel(Channel::C1), ChannelDuty { channel: Channel::C1, duty: 1000 });
}

#[test]
fn set_max_duty_writes_the_upper_bound() {
    let esc = configured(());
    assert_eq!(esc.set_max_duty(), 2000);
}

#[test]
fn set_min_duty_writes_the_lower_bound() {
    let esc = configured(());
    assert_eq!(esc.set_min_duty(), 1000);
}

#[test]
fn set_max_duty_twice_shows_what_once_shows() {
    let mut once = configured(Pin { duty: 1300, writes: 0 });
    let duty = once.set_max_duty();
    once.pwm.write(duty);

    let mut twice = configured(Pin { duty: 1300, writes: 0 });
    let first = twice.set_max_duty();
    twice.pwm.write(first);
    let second = twice.set_max_duty();
    twice.pwm.write(second);

    assert_eq!(first, second);
    assert_eq!(once.pwm.duty, 2000);
    assert_eq!(twice.pwm.duty, once.pwm.duty);
}

#[test]
fn set_duty_passes_a_value_in_range_through() {
    let esc = configured(());
    assert_eq!(esc.set_duty(1000), 1000);
    assert_eq!(esc.set_duty(1234), 1234);
    assert_eq!(esc.set_duty(2000), 2000);
}

#[test]
fn set_duty_clamps_a_value_out_of_range() {
    let esc = configured(());
    assert_eq!(esc.set_duty(0), 1000);
    assert_eq!(esc.set_duty(999), 1000);
    assert_eq!(esc.set_duty(2001), 2000);
    assert_eq!(esc.set_duty(u16::MAX), 2000);
}

#[test]
fn set_channel_duty_clamps_and_keeps_the_channel() {
    let esc = configured(());
    assert_eq!(
        esc.set_channel_duty(Channel::C1, 1500),
        ChannelDuty { channel: Channel::C1, duty: 1500 }
    );
    assert_eq!(
        esc.set_channel_duty(Channel::C2, 100),
        ChannelDuty { channel: Channel::C2, duty: 1000 }
    );
    assert_eq!(
        esc.set_channel_duty(Channel::C2, 3000),
        ChannelDuty { channel: Channel::C2, duty: 2000 }
    );
}

#[test]
fn channel_presets_share_the_bounds_of_the_controller() {
    let esc = configured(());
    for channel in [Channel::C1, Channel::C2] {
        assert_eq!(esc.arm_channel(channel), ChannelDuty { channel, duty: 1000 });
        assert_eq!(esc.disarm_channel(channel), ChannelDuty { channel, duty: 1000 });
        assert_eq!(esc.set_channel_max_duty(channel), ChannelDuty { channel, duty: 2000 });
        assert_eq!(esc.set_channel_min_duty(channel), ChannelDuty { channel, duty: 1000 });
    }
}

#[test]
fn arm_channel_inside_the_range_is_written_as_set() {
    let mut esc = configured(());
    esc.arm_duty = 1750;
    assert_eq!(esc.arm_channel(Channel::C2), ChannelDuty { channel: Channel::C2, duty: 1750 });
}

#[test]
fn presets_under_inverted_bounds_command_the_lower_bound() {
    let mut esc = Esc::new(());
    esc.min_duty = 2000;
    esc.max_duty = 1000;
    esc.arm_duty = 1500;
    esc.disarm_duty = 500;
    assert_eq!(esc.arm(), 2000);
    assert_eq!(esc.disarm(), 2000);
    assert_eq!(esc.set_max_duty(), 2000);
    assert_eq!(esc.set_min_duty(), 2000);
    assert_eq!(esc.set_duty(3000), 2000);
}

#[test]
fn channel_duty_can_be_copied() {
    let write = ChannelDuty { channel: Channel::C1, duty: 1500 };
    let copy = write;
    assert_eq!(write.clone(), copy);
}
