#![allow(non_snake_case)]

use std::rc::Rc;

use ears::command::Command;
use ears::error::Error;
use ears::metadata::{StreamInfo, Tags};
use ears::property::{flag_value, Flag, Scalar, Vector};
use ears::sound::{get_buffer, Sound, SoundData};
use ears::states::State;
use ears::states::State::{Initial, Paused, Playing, Stopped};

/// A backend with one source, in memory.
struct Bench {
    state: State,
    bound: u32,
    scalars: Vec<(Scalar, u32)>,
    vectors: Vec<(Vector, [u32; 3])>,
    flags: Vec<(Flag, i32)>,
    log: Vec<Command>,
}

impl Bench {
    fn new() -> Bench {
        Bench {
            state: Initial,
            bound: 0,
            scalars: vec![
                (Scalar::Gain, 1f32.to_bits()),
                (Scalar::MinGain, 0f32.to_bits()),
                (Scalar::MaxGain, 1f32.to_bits()),
                (Scalar::Pitch, 1f32.to_bits()),
                (Scalar::MaxDistance, f32::MAX.to_bits()),
                (Scalar::ReferenceDistance, 1f32.to_bits()),
                (Scalar::Rolloff, 1f32.to_bits()),
            ],
            vectors: vec![(Vector::Position, [0; 3]), (Vector::Direction, [0; 3])],
            flags: vec![(Flag::Looping, 0), (Flag::Relative, 0)],
            log: Vec::new(),
        }
    }

    fn send(&mut self, command: Command) {
        self.log.push(command);
        match command {
            Command::Play { .. } | Command::Pause { .. } | Command::Stop { .. } => {
                self.state = self.state.after(command.transport().unwrap());
            }
            Command::Bind { buffer, .. } => self.bound = buffer,
            Command::SetFlag { flag, value, .. } => {
                self.flags.retain(|held| held.0 != flag);
                self.flags.push((flag, value));
            }
            Command::SetScalar { scalar, bits, .. } => {
                self.scalars.retain(|held| held.0 != scalar);
                self.scalars.push((scalar, bits));
            }
            Command::SetVector { vector, x, y, z, .. } => {
                self.vectors.retain(|held| held.0 != vector);
                self.vectors.push((vector, [x, y, z]));
            }
            _ => {}
        }
    }

    fn scalar(&self, scalar: Scalar) -> f32 {
        f32::from_bits(self.scalars.iter().find(|held| held.0 == scalar).unwrap().1)
    }

    fn vector(&self, vector: Vector) -> [f32; 3] {
        let bits = self.vectors.iter().find(|held| held.0 == vector).unwrap().1;
        [f32::from_bits(bits[0]), f32::from_bits(bits[1]), f32::from_bits(bits[2])]
    }

    fn flag(&self, flag: Flag) -> i32 {
        self.flags.iter().find(|held| held.0 == flag).unwrap().1
    }
}

fn data(buffer: u32, title: &str) -> SoundData {
    let mut tags = Tags::empty();
    tags.title = String::from(title);
    SoundData {
        buffer,
        info: StreamInfo { frames: 22_050, samplerate: 44100, channels: 1 },
        samples: 22_050,
        tags,
    }
}

/// A sound on a bench: what an application holds.
struct Speaker {
    sound: Sound,
    bench: Bench,
}

impl Speaker {
    fn new(path: &str) -> Result<Speaker, Error> {
        let loaded = if path == "res/shot.wav" { Some(data(20, "shot")) } else { None };
        let mut bench = Bench::new();
        if let Some(found) = loaded.as_ref() {
            bench.send(Command::Bind { source: 1, buffer: get_buffer(found) });
        }
        let sound = Sound::new(loaded, 1, None)?;
        Ok(Speaker { sound, bench })
    }

    fn play(&mut self) {
        let command = self.sound.source().play();
        self.bench.send(command);
    }

    fn pause(&mut self) {
        let command = self.sound.source().pause();
        self.bench.send(command);
    }

    fn stop(&mut self) {
        let command = self.sound.source().stop();
        self.bench.send(command);
    }

    fn get_state(&self) -> State {
        State::from_code(self.bench.state.code()).unwrap()
    }

    fn is_playing(&self) -> bool {
        self.get_state().is_playing()
    }

    fn set_datas(&mut self, sound_data: Rc<SoundData>) {
        if let Some(command) = self.sound.set_datas(self.get_state(), sound_data) {
            self.bench.send(command);
        }
    }

    fn set_scalar(&mut self, scalar: Scalar, value: f32) {
        if let Ok(command) = self.sound.source().set_scalar(scalar, value.to_bits()) {
            self.bench.send(command);
        }
    }

    fn set_vector(&mut self, vector: Vector, value: [f32; 3]) {
        let command = self.sound.source().set_vector(
            vector,
            value[0].to_bits(),
            value[1].to_bits(),
            value[2].to_bits(),
        );
        self.bench.send(command);
    }

    fn set_volume(&mut self, volume: f32) {
        self.set_scalar(Scalar::Gain, volume)
    }

    fn get_volume(&self) -> f32 {
        self.bench.scalar(Scalar::Gain)
    }

    fn set_min_volume(&mut self, volume: f32) {
        self.set_scalar(Scalar::MinGain, volume)
    }

    fn get_min_volume(&self) -> f32 {
        self.bench.scalar(Scalar::MinGain)
    }

    fn set_max_volume(&mut self, volume: f32) {
        self.set_scalar(Scalar::MaxGain, volume)
    }

    fn get_max_volume(&self) -> f32 {
        self.bench.scalar(Scalar::MaxGain)
    }

    fn set_looping(&mut self, looping: bool) {
        let command = self.sound.source().set_flag(Flag::Looping, looping);
        self.bench.send(command);
    }

    fn is_looping(&self) -> bool {
        flag_value(self.bench.flag(Flag::Looping)).unwrap()
    }

    fn set_pitch(&mut self, pitch: f32) {
        self.set_scalar(Scalar::Pitch, pitch)
    }

    fn get_pitch(&self) -> f32 {
        self.bench.scalar(Scalar::Pitch)
    }

    fn set_relative(&mut self, relative: bool) {
        let command = self.sound.source().set_flag(Flag::Relative, relative);
        self.bench.send(command);
    }

    fn is_relative(&mut self) -> bool {
        flag_value(self.bench.flag(Flag::Relative)).unwrap()
    }

    fn set_position(&mut self, position: [f32; 3]) {
        self.set_vector(Vector::Position, position)
    }

    fn get_position(&self) -> [f32; 3] {
        self.bench.vector(Vector::Position)
    }

    fn set_direction(&mut self, direction: [f32; 3]) {
        self.set_vector(Vector::Direction, direction)
    }

    fn get_direction(&self) -> [f32; 3] {
        self.bench.vector(Vector::Direction)
    }

    fn set_max_distance(&mut self, distance: f32) {
        self.set_scalar(Scalar::MaxDistance, distance)
    }

    fn get_max_distance(&self) -> f32 {
        self.bench.scalar(Scalar::MaxDistance)
    }

    fn set_reference_distance(&mut self, distance: f32) {
        self.set_scalar(Scalar::ReferenceDistance, distance)
    }

    fn get_reference_distance(&self) -> f32 {
        self.bench.scalar(Scalar::ReferenceDistance)
    }

    fn set_attenuation(&mut self, attenuation: f32) {
        self.set_scalar(Scalar::Rolloff, attenuation)
    }

    fn get_attenuation(&self) -> f32 {
        self.bench.scalar(Scalar::Rolloff)
    }
}

#[test]
fn sound_create_OK() -> () {
    let snd = Speaker::new("res/shot.wav");
    println!("YOUHOU");
    match snd {
        Ok(_) => {}
        Err(_) => panic!(),
    }
}

#[test]
fn sound_create_FAIL() -> () {
    let snd = Speaker::new("toto.wav");

    match snd {
        Ok(_) => panic!(),
        Err(_) => {}
    }
}

#[test]
fn sound_play_OK() -> () {
    let mut snd = Speaker::new("res/shot.wav").expect("Cannot create sound");

    snd.play();
    assert_eq!(snd.get_state() as i32, Playing as i32);
    snd.stop();
}

#[test]
fn sound_pause_OK() -> () {
    let mut snd = Speaker::new("res/shot.wav").expect("Cannot create sound");

    snd.play();
    snd.pause();
    assert_eq!(snd.get_state() as i32, Paused as i32);
    snd.stop();
}

#[test]
fn sound_stop_OK() -> () {
    let mut snd = Speaker::new("res/shot.wav").expect("Cannot create sound");

    snd.play();
    snd.stop();
    assert_eq!(snd.get_state() as i32, Stopped as i32);
    snd.stop();
}

#[test]
fn sound_is_playing_TRUE() -> () {
    let mut snd = Speaker::new("res/shot.wav").expect("Cannot create sound");

    snd.play();
    assert_eq!(snd.is_playing(), true);
    snd.stop();
}

#[test]
fn sound_is_playing_FALSE() -> () {
    let mut snd = Speaker::new("res/shot.wav").expect("Cannot create sound");

    assert_eq!(snd.is_playing(), false);
    snd.stop();
}

#[test]
fn sound_set_volume_OK() -> () {
    let mut snd = Speaker::new("res/shot.wav").expect("Cannot create sound");

    snd.set_volume(0.7);
    assert_eq!(snd.get_volume(), 0.7);
}

#[test]
#[should_panic]
fn sound_set_volume_low_FAIL() -> () {
    let mut snd = Speaker::new("res/shot.wav").expect("Cannot create sound");

    snd.set_volume(-1.);
    assert_eq!(snd.get_volume(), -1.);
}

#[test]
fn sound_set_min_volume_OK() -> () {
    let mut snd = Speaker::new("res/shot.wav").expect("Cannot create sound");

    snd.set_min_volume(0.1);
    assert_eq!(snd.get_min_volume(), 0.1);
}

#[test]
#[should_panic]
fn sound_set_min_volume_high_FAIL() -> () {
    let mut snd = Speaker::new("res/shot.wav").expect("Cannot create sound");

    snd.set_min_volume(10.9);
    assert_eq!(snd.get_min_volume(), 10.9);
}

#[test]
#[should_panic]
fn sound_set_min_volume_low_FAIL() -> () {
    let mut snd = Speaker::new("res/shot.wav").expect("Cannot create sound");

    snd.set_min_volume(-1.);
    assert_eq!(snd.get_min_volume(), -1.);
}

#[test]
fn sound_set_max_volume_OK() -> () {
    let mut snd = Speaker::new("res/shot.wav").expect("Cannot create sound");

    snd.set_max_volume(0.9);
    assert_eq!(snd.get_max_volume(), 0.9);
}

#[test]
#[should_panic]
fn sound_set_max_volume_high_FAIL() -> () {
    let mut snd = Speaker::new("res/shot.wav").expect("Cannot create sound");

    snd.set_max_volume(10.9);
    assert_eq!(snd.get_max_volume(), 10.9);
}

#[test]
#[should_panic]
fn sound_set_max_volume_low_FAIL() -> () {
    let mut snd = Speaker::new("res/shot.wav").expect("Cannot create sound");

    snd.set_max_volume(-1.);
    assert_eq!(snd.get_max_volume(), -1.);
}

#[test]
fn sound_is_looping_TRUE() -> () {
    let mut snd = Speaker::new("res/shot.wav").expect("Cannot create sound");

    snd.set_looping(true);
    assert_eq!(snd.is_looping(), true);
}

#[test]
fn sound_is_looping_FALSE() -> () {
    let mut snd = Speaker::new("res/shot.wav").expect("Cannot create sound");

    snd.set_looping(false);
    assert_eq!(snd.is_looping(), false);
}

#[test]
fn sound_set_pitch_OK() -> () {
    let mut snd = Speaker::new("res/shot.wav").expect("Cannot create sound");

    snd.set_pitch(1.5);
    assert_eq!(snd.get_pitch(), 1.5);
}

#[test]
#[should_panic]
fn sound_set_pitch_too_low_FAIL() -> () {
    let mut snd = Speaker::new("res/shot.wav").expect("Cannot create sound");

    snd.set_pitch(-1.);
    assert_eq!(snd.get_pitch(), -1.);
}

#[test]
fn sound_set_relative_TRUE() -> () {
    let mut snd = Speaker::new("res/shot.wav").expect("Cannot create sound");

    snd.set_relative(true);
    assert_eq!(snd.is_relative(), true);
}

#[test]
fn sound_set_relative_FALSE() -> () {
    let mut snd = Speaker::new("res/shot.wav").expect("Cannot create sound");

    snd.set_relative(false);
    assert_eq!(snd.is_relative(), false);
}

#[test]
fn sound_set_position_OK() -> () {
    let mut snd = Speaker::new("res/shot.wav").expect("Cannot create sound");

    snd.set_position([50f32, 150f32, 250f32]);
    let res = snd.get_position();
    assert_eq!([res[0], res[1], res[2]], [50f32, 150f32, 250f32]);
}

#[test]
fn sound_set_direction_OK() -> () {
    let mut snd = Speaker::new("res/shot.wav").expect("Cannot create sound");

    snd.set_direction([50f32, 150f32, 250f32]);
    let res = snd.get_direction();
    assert_eq!([res[0], res[1], res[2]], [50f32, 150f32, 250f32]);
}

#[test]
fn sound_set_max_distance_OK() -> () {
    let mut snd = Speaker::new("res/shot.wav").expect("Cannot create sound");

    snd.set_max_distance(70.);
    assert_eq!(snd.get_max_distance(), 70.);
}

#[test]
#[should_panic]
fn sound_set_max_distance_FAIL() -> () {
    let mut snd = Speaker::new("res/shot.wav").expect("Cannot create sound");

    snd.set_max_distance(-1.);
    assert_eq!(snd.get_max_distance(), -1.);
}

#[test]
fn sound_set_reference_distance_OK() -> () {
    let mut snd = Speaker::new("res/shot.wav").expect("Cannot create sound");

    snd.set_reference_distance(70.);
    assert_eq!(snd.get_reference_distance(), 70.);
}

#[test]
#[should_panic]
fn sound_set_reference_distance_FAIL() -> () {
    let mut snd = Speaker::new("res/shot.wav").expect("Cannot create sound");

    snd.set_reference_distance(-1.);
    assert_eq!(snd.get_reference_distance(), -1.);
}

#[test]
fn sound_set_attenuation_OK() -> () {
    let mut snd = Speaker::new("res/shot.wav").expect("Cannot create sound");

    snd.set_attenuation(0.5f32);
    assert_eq!(snd.get_attenuation(), 0.5f32);
}

#[test]
#[should_panic]
fn sound_set_attenuation_FAIL() -> () {
    let mut snd = Speaker::new("res/shot.wav").expect("Cannot create sound");

    snd.set_attenuation(-1.);
    assert_eq!(snd.get_attenuation(), -1.);
}

#[test]
fn sound_new_reports_data_that_could_not_be_loaded() {
    assert_eq!(Sound::new(None, 1, None).err(), Some(Error::Open));
    assert_eq!(Sound::new(None, 1, Some(0xA004)).err(), Some(Error::Open));
}

#[test]
fn sound_new_reports_the_error_of_the_backend() {
    let made = Sound::new(Some(data(20, "shot")), 1, Some(0xA004));
    assert_eq!(made.err(), Some(Error::Hardware { code: 0xA004 }));
    let made = Sound::new_with_data(Rc::new(data(20, "shot")), 1, Some(0xA001));
    assert_eq!(made.err(), Some(Error::Hardware { code: 0xA001 }));
}

#[test]
fn sound_new_keeps_source_and_data() {
    let sound = Sound::new(Some(data(20, "shot")), 5, None).unwrap();
    assert_eq!(sound.source().id, 5);
    assert_eq!(*sound.get_datas(), data(20, "shot"));
    assert_eq!(sound.get_tags().title, "shot");
    assert_eq!(sound.teardown(), Command::DeleteSource { source: 5 });
}

#[test]
fn get_datas_shares_the_data_of_the_sound() {
    let shared = Rc::new(data(20, "shot"));
    let sound = Sound::new_with_data(shared.clone(), 1, None).unwrap();
    let datas = sound.get_datas();
    assert!(Rc::ptr_eq(&datas, &shared));
    assert_eq!(Rc::strong_count(&shared), 3);
    assert_eq!(get_buffer(&datas), 20);
}

#[test]
fn two_sounds_can_play_the_same_data() {
    let snd1 = Speaker::new("res/shot.wav").unwrap();
    let mut snd2 = Speaker { sound: Sound::new(Some(data(21, "other")), 2, None).unwrap(), bench: Bench::new() };
    let snd_data = snd1.sound.get_datas();
    snd2.set_datas(snd_data);
    assert!(Rc::ptr_eq(&snd1.sound.get_datas(), &snd2.sound.get_datas()));
    assert_eq!(snd2.bench.log, vec![Command::Bind { source: 2, buffer: 20 }]);
    assert_eq!(snd2.bench.bound, 20);
    assert_eq!(snd2.sound.source().id, 2);
}

#[test]
fn set_datas_leaves_a_playing_sound_alone() {
    let mut snd = Speaker::new("res/shot.wav").unwrap();
    snd.play();
    snd.bench.log.clear();
    snd.set_datas(Rc::new(data(21, "other")));
    assert!(snd.bench.log.is_empty());
    assert_eq!(snd.sound.get_datas().buffer, 20);
    assert_eq!(snd.sound.get_tags().title, "shot");
}

#[test]
fn set_datas_takes_effect_in_every_other_state() {
    for state in [Initial, Paused, Stopped] {
        let mut sound = Sound::new(Some(data(20, "shot")), 1, None).unwrap();
        let command = sound.set_datas(state, Rc::new(data(21, "other")));
        assert_eq!(command, Some(Command::Bind { source: 1, buffer: 21 }));
        assert_eq!(sound.get_datas().buffer, 21);
        assert_eq!(sound.get_tags().title, "other");
    }
    let mut sound = Sound::new(Some(data(20, "shot")), 1, None).unwrap();
    assert_eq!(sound.set_datas(Playing, Rc::new(data(21, "other"))), None);
}
