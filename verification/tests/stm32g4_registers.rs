use rust_embedded::stm32g4_pwm::{
    mid_point_compare_value, output_compare_setting, output_enables, OutputCompareMode,
};
use rust_embedded::adc::AdcTriggerSource;
use rust_embedded::stm32g4_adc::{extsel_exten, sample_time_slot, sequence_rank_slot, TriggerEdge};

#[test]
fn sequence_ranks_fill_sqr1_to_sqr4_in_order() {
    assert_eq!(sequence_rank_slot(0), (1, 0));
    assert_eq!(sequence_rank_slot(3), (1, 3));
    assert_eq!(sequence_rank_slot(4), (2, 0));
    assert_eq!(sequence_rank_slot(8), (2, 4));
    assert_eq!(sequence_rank_slot(9), (3, 0));
    assert_eq!(sequence_rank_slot(13), (3, 4));
    assert_eq!(sequence_rank_slot(14), (4, 0));
    assert_eq!(sequence_rank_slot(15), (4, 1));
}

#[test]
fn sample_times_split_at_channel_ten() {
    assert_eq!(sample_time_slot(0), (1, 0));
    assert_eq!(sample_time_slot(9), (1, 9));
    assert_eq!(sample_time_slot(10), (2, 0));
    assert_eq!(sample_time_slot(13), (2, 3));
    assert_eq!(sample_time_slot(18), (2, 8));
}

#[test]
fn trigger_sources_select_their_external_trigger_code() {
    assert_eq!(extsel_exten(AdcTriggerSource::Software), (0, TriggerEdge::Disabled));
    assert_eq!(
        extsel_exten(AdcTriggerSource::Stm32g4Tim1TriggerOut1Rising),
        (9, TriggerEdge::RisingEdge)
    );
    assert_eq!(
        extsel_exten(AdcTriggerSource::Stm32g4Tim1TriggerOut2Rising),
        (10, TriggerEdge::RisingEdge)
    );
    assert_eq!(
        extsel_exten(AdcTriggerSource::Stm32g4Tim8TriggerOut1Rising),
        (7, TriggerEdge::RisingEdge)
    );
    assert_eq!(
        extsel_exten(AdcTriggerSource::Stm32g4Tim8TriggerOut2Rising),
        (8, TriggerEdge::RisingEdge)
    );
    assert_eq!(
        extsel_exten(AdcTriggerSource::Stm32g4Tim20TriggerOut1Rising),
        (16, TriggerEdge::RisingEdge)
    );
    assert_eq!(
        extsel_exten(AdcTriggerSource::Stm32g4Tim20TriggerOut2Rising),
        (17, TriggerEdge::RisingEdge)
    );
}


#[test]
fn output_channels_run_in_pwm_mode_1_with_preload() {
    for index in 0..3 {
        assert_eq!(
            output_compare_setting(3, true, index),
            Some((OutputCompareMode::PwmMode1, true))
        );
        assert_eq!(output_enables(3, true, index), (true, true));
    }
    // A channel beyond the configured ones stays unset and disabled.
    assert_eq!(output_compare_setting(2, false, 2), None);
    assert_eq!(output_enables(2, false, 2), (false, false));
    assert_eq!(output_enables(3, false, 3), (false, false));
}

#[test]
fn channel_5_is_set_up_only_for_the_mid_point_trigger() {
    assert_eq!(
        output_compare_setting(3, true, 4),
        Some((OutputCompareMode::PwmMode2, false))
    );
    assert_eq!(output_enables(3, true, 4), (true, false));
    assert_eq!(output_compare_setting(3, false, 4), None);
    assert_eq!(output_enables(3, false, 4), (false, false));
}

#[test]
fn channel_5_compares_short_of_the_peak() {
    assert_eq!(mid_point_compare_value(4249), 4241);
    assert_eq!(mid_point_compare_value(8), 0);
    assert_eq!(mid_point_compare_value(3), 0);
}
